use transformer_rs::domain::entity::loss::scored_rows;
use transformer_rs::domain::entity::passes::{check_context, check_loss_gradient};
use transformer_rs::domain::entity::value_objects::PAD_TOKEN;
use transformer_rs::domain::entity::TransformerError;

fn data_message<T: std::fmt::Debug>(r: Result<T, TransformerError>) -> String {
    match r {
        Err(TransformerError::InvalidData(m)) => m,
        Err(e) => panic!("unexpected error {}", e.message()),
        Ok(v) => panic!("accepted {v:?}"),
    }
}

#[test]
fn forward_reads_between_one_token_and_the_context() {
    assert!(check_context(1, 4).is_ok());
    assert!(check_context(4, 4).is_ok());
    assert_eq!(data_message(check_context(0, 4)), "sequence length outside model context");
    assert_eq!(data_message(check_context(5, 4)), "sequence length outside model context");
}

#[test]
fn backward_takes_one_gradient_per_logit() {
    assert!(check_loss_gradient(12, 3, 4).is_ok());
    assert_eq!(data_message(check_loss_gradient(11, 3, 4)), "loss gradient shape mismatch");
    assert_eq!(
        data_message(check_loss_gradient(0, usize::MAX, 2)),
        "loss gradient shape mismatch"
    );
}

#[test]
fn loss_scores_the_rows_whose_target_is_not_padding() {
    let targets = [1, PAD_TOKEN, 2, 0];
    assert_eq!(scored_rows(4 * 300, &targets, 300, &[true; 4]).unwrap(), vec![0, 2, 3]);
}

#[test]
fn loss_refuses_in_row_order() {
    assert_eq!(
        data_message(scored_rows(7, &[1, 2], 4, &[true, true])),
        "logit/target shape mismatch"
    );
    assert_eq!(
        data_message(scored_rows(8, &[1, 9], 4, &[false, true])),
        "softmax requires finite non-empty input"
    );
    assert_eq!(
        data_message(scored_rows(8, &[1, 9], 4, &[true, false])),
        "target outside vocabulary"
    );
    assert_eq!(scored_rows(8, &[PAD_TOKEN, 1], 4, &[false, true]).unwrap(), vec![1]);
    assert_eq!(
        data_message(scored_rows(600, &[PAD_TOKEN, PAD_TOKEN], 300, &[false, false])),
        "no target tokens"
    );
}
