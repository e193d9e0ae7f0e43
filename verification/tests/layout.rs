use transformer_rs::domain::entity::layout::{parameter_layout, ParameterSpec};
use transformer_rs::domain::entity::snapshot::{check_snapshot, shape_elements, ParameterMeta};
use transformer_rs::domain::entity::value_objects::ModelConfig;
use transformer_rs::domain::entity::TransformerError;

fn small() -> ModelConfig {
    ModelConfig {
        vocab_size: 7,
        max_seq_len: 8,
        d_model: 4,
        num_heads: 2,
        num_layers: 2,
        d_ff: 6,
    }
}

fn metas(layout: &[ParameterSpec]) -> Vec<ParameterMeta> {
    layout
        .iter()
        .map(|p| ParameterMeta {
            name: p.name.clone(),
            shape: p.shape.clone(),
            value_count: p.shape.iter().product(),
            all_finite: true,
        })
        .collect()
}

fn checkpoint_message(r: Result<(), TransformerError>) -> String {
    match r {
        Err(TransformerError::Checkpoint(m)) => m,
        Err(e) => panic!("unexpected error {}", e.message()),
        Ok(()) => panic!("accepted"),
    }
}

#[test]
fn layout_has_twelve_parameters_per_layer_between_embedding_and_output() {
    let layout = parameter_layout(&small());
    assert_eq!(layout.len(), 1 + 12 * 2 + 2);
    assert_eq!(layout[0].name, "embedding.weight");
    assert_eq!(layout[0].shape, vec![7, 4]);
    assert_eq!(layout[0].fan_in, 7);
    assert_eq!(layout[25].name, "output_projection.weight");
    assert_eq!(layout[25].shape, vec![4, 7]);
    assert_eq!(layout[26].name, "output_projection.bias");
    assert_eq!(layout[26].shape, vec![7]);
}

#[test]
fn layer_parameters_are_named_and_shaped_in_storage_order() {
    let layout = parameter_layout(&small());
    let expected: [(&str, Vec<usize>, usize, bool); 12] = [
        ("qkv.weight", vec![4, 12], 4, false),
        ("qkv.bias", vec![12], 1, false),
        ("attention_output.weight", vec![4, 4], 4, false),
        ("attention_output.bias", vec![4], 1, false),
        ("norm1.weight", vec![4], 1, true),
        ("norm1.bias", vec![4], 1, false),
        ("ffn.linear1.weight", vec![4, 6], 4, false),
        ("ffn.linear1.bias", vec![6], 1, false),
        ("ffn.linear2.weight", vec![6, 4], 6, false),
        ("ffn.linear2.bias", vec![4], 1, false),
        ("norm2.weight", vec![4], 1, true),
        ("norm2.bias", vec![4], 1, false),
    ];
    for layer in 0..2 {
        for (k, (suffix, shape, fan_in, identity)) in expected.iter().enumerate() {
            let p = &layout[1 + 12 * layer + k];
            assert_eq!(p.name, format!("decoder.layers.{layer}.{suffix}"));
            assert_eq!(&p.shape, shape);
            assert_eq!(p.fan_in, *fan_in);
            assert_eq!(p.identity, *identity);
        }
    }
}

#[test]
fn layout_names_are_distinct_even_past_ten_layers() {
    let mut config = small();
    config.num_layers = 12;
    let layout = parameter_layout(&config);
    let mut names: Vec<&String> = layout.iter().map(|p| &p.name).collect();
    names.sort();
    names.dedup();
    assert_eq!(names.len(), layout.len());
    assert_eq!(layout[1 + 12 * 11].name, "decoder.layers.11.qkv.weight");
}

#[test]
fn the_layout_of_a_configuration_is_an_accepted_snapshot() {
    let config = small();
    let params = metas(&parameter_layout(&config));
    assert!(check_snapshot(&config, 7, &params).is_ok());
}

#[test]
fn snapshot_with_other_tokenizer_vocabulary_is_refused() {
    let config = small();
    let params = metas(&parameter_layout(&config));
    assert_eq!(
        checkpoint_message(check_snapshot(&config, 8, &params)),
        "tokenizer and model vocabulary sizes differ"
    );
}

#[test]
fn snapshot_with_invalid_configuration_is_refused() {
    let mut config = small();
    config.num_heads = 3;
    match check_snapshot(&config, 7, &Vec::new()) {
        Err(TransformerError::InvalidConfig(m)) => {
            assert_eq!(m, "d_model must be divisible by num_heads")
        }
        _ => panic!("expected an invalid configuration"),
    }
}

#[test]
fn snapshot_with_missing_parameter_is_refused() {
    let config = small();
    let mut params = metas(&parameter_layout(&config));
    params.pop();
    assert_eq!(
        checkpoint_message(check_snapshot(&config, 7, &params)),
        "parameter count mismatch"
    );
}

#[test]
fn repeated_parameter_name_is_reported_as_duplicate() {
    let config = small();
    let mut params = metas(&parameter_layout(&config));
    params[2].name = params[1].name.clone();
    assert_eq!(
        checkpoint_message(check_snapshot(&config, 7, &params)),
        "duplicate parameter decoder.layers.0.qkv.weight"
    );
}

#[test]
fn wrong_name_shape_or_count_is_a_mismatch() {
    let config = small();
    let base = metas(&parameter_layout(&config));

    let mut renamed = metas(&parameter_layout(&config));
    renamed[3].name = "elsewhere".to_string();
    assert_eq!(
        checkpoint_message(check_snapshot(&config, 7, &renamed)),
        "parameter mismatch for elsewhere"
    );

    let mut reshaped = metas(&parameter_layout(&config));
    reshaped[0].shape = vec![4, 7];
    assert_eq!(
        checkpoint_message(check_snapshot(&config, 7, &reshaped)),
        "parameter mismatch for embedding.weight"
    );

    let mut short = metas(&parameter_layout(&config));
    short[26].value_count = 6;
    assert_eq!(
        checkpoint_message(check_snapshot(&config, 7, &short)),
        "parameter mismatch for output_projection.bias"
    );
    assert!(check_snapshot(&config, 7, &base).is_ok());
}

#[test]
fn non_finite_values_are_refused_after_the_shape_checks() {
    let config = small();
    let mut params = metas(&parameter_layout(&config));
    params[5].all_finite = false;
    params[9].name = "later".to_string();
    assert_eq!(
        checkpoint_message(check_snapshot(&config, 7, &params)),
        "non-finite parameter decoder.layers.0.norm1.weight"
    );
}

#[test]
fn element_counts_are_products_that_fit() {
    assert_eq!(shape_elements(&vec![]), Some(1));
    assert_eq!(shape_elements(&vec![3, 4, 5]), Some(60));
    assert_eq!(shape_elements(&vec![usize::MAX, 0]), Some(0));
    assert_eq!(shape_elements(&vec![usize::MAX, 2]), None);
}
