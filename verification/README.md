# transformer_rs

A small decoder-only Transformer trained on plain text, with BPE and
byte-level tokenizers, versioned binary checkpoints, evaluation metrics and
prompted generation. The library in `src/` is verified with Verus; the
command-line program in `app/` runs it.

## Layout

- `src/domain/entity`: value objects, the error type, the parameter layout of
  a model, snapshot validation, tensor shape and index arithmetic, the rows a
  loss scores, and the checks of the forward and backward passes.
- `src/domain/use_case`: training/evaluation windows, the generation state
  machine, and what the use cases refuse.
- `src/byte_pair`: the BPE tokenizer over the `tokenizers` crate, its
  trainer, and the SHA-256 fingerprint of its files.
- `src/adapter`: the byte-level and BPE tokenizers as the model sees them, the
  checkpoint envelope, and how the command line reports BPE failures.
- `src/embedding.rs`: a token-embedding layer over `candle` tensors.
- `src/text.rs`, `src/platform.rs`: decimal and hexadecimal text, and the
  standard-library items the library carries.
- `app/`: argument parsing, files, checkpoints on disk, and the
  model's floating-point arithmetic, which call into the library for every
  shape, index and validation decision.

The contracts of the library are stated over mathematical models (`Seq`,
`nat`, views of each type). Where an outside crate's result is a function of
its arguments (the `tokenizers` lookups and BPE training, SHA-256), it is
named and the library's contracts are exact over those names. Each `candle`
tensor is new, so the embedding layer states what holds of every result (its
dimensions and which rows of which table it holds), when a lookup succeeds
(on the CPU, with a contiguous `vocab_size x d_model` table and ids inside
the vocabulary), and the message of an id outside the vocabulary.
