//! The error every model operation reports.
use vstd::prelude::*;
use vstd::string::*;

verus! {

/// What went wrong in configuration, data, tensors, checkpoints or I/O.
#[derive(Debug)]
pub enum TransformerError {
    InvalidConfig(String),
    InvalidData(String),
    InvalidTensor(String),
    Checkpoint(String),
    Io(std::io::Error),
}

/// The text of an error whose category carries a message.
pub open spec fn error_text(e: TransformerError) -> Option<Seq<char>> {
    match e {
        TransformerError::InvalidConfig(s) => Some("invalid configuration: "@ + s@),
        TransformerError::InvalidData(s) => Some("invalid data: "@ + s@),
        TransformerError::InvalidTensor(s) => Some("invalid tensor: "@ + s@),
        TransformerError::Checkpoint(s) => Some("checkpoint error: "@ + s@),
        TransformerError::Io(_) => None,
    }
}

fn prefixed(prefix: &str, s: &String) -> (r: String)
    ensures
        r@ == prefix@ + s@,
{
    let mut r = String::from_str(prefix);
    r.append(s.as_str());
    r
}

impl TransformerError {
    /// The human-readable message: the category, a colon, and the detail.
    /// An I/O error is described by the standard library's own text.
    pub fn message(&self) -> (r: String)
        ensures
            error_text(*self) matches Some(t) ==> r@ == t,
            self is Io ==> r@.len() >= "I/O error: "@.len()
                && r@.take("I/O error: "@.len() as int) == "I/O error: "@,
    {
        match self {
            TransformerError::InvalidConfig(s) => prefixed("invalid configuration: ", s),
            TransformerError::InvalidData(s) => prefixed("invalid data: ", s),
            TransformerError::InvalidTensor(s) => prefixed("invalid tensor: ", s),
            TransformerError::Checkpoint(s) => prefixed("checkpoint error: ", s),
            TransformerError::Io(e) => {
                let detail = e.to_string();
                let r = prefixed("I/O error: ", &detail);
                assert(r@.take("I/O error: "@.len() as int) =~= "I/O error: "@);
                r
            },
        }
    }
}

impl From<std::io::Error> for TransformerError {
    fn from(value: std::io::Error) -> (r: Self) {
        TransformerError::Io(value)
    }
}

impl vstd::std_specs::convert::FromSpecImpl<std::io::Error> for TransformerError {
    open spec fn obeys_from_spec() -> bool {
        true
    }

    open spec fn from_spec(v: std::io::Error) -> Self {
        TransformerError::Io(v)
    }
}

} // verus!
