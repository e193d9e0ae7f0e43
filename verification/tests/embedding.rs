use candle_core::{DType, Device, Tensor};
use candle_nn::VarBuilder;
use std::collections::HashMap;
use transformer_rs::embedding::{check_token_ids, Embedding};

fn random_embedding(vocab_size: usize, d_model: usize, device: &Device) -> Embedding {
    let weight = Tensor::randn(0f32, 1f32, (vocab_size, d_model), device).unwrap();
    Embedding::from_weight(weight, vocab_size, d_model, device.clone()).unwrap()
}

fn fixed_embedding(device: &Device) -> candle_core::Result<Embedding> {
    let weights = Tensor::new(
        &[0f32, 1., 2., 3., 10., 11., 12., 13., 20., 21., 22., 23.],
        device,
    )?
    .reshape((3, 4))?;
    let mut tensors = HashMap::new();
    tensors.insert("embedding.weight".to_string(), weights);
    let vb = VarBuilder::from_tensors(tensors, DType::F32, device);
    let layer = candle_nn::embedding(3, 4, vb.pp("embedding"))?;
    Embedding::from_weight(layer.embeddings().clone(), 3, 4, device.clone())
}

#[test]
fn lookup_shape_and_rows() -> candle_core::Result<()> {
    let device = Device::Cpu;
    let embedding = fixed_embedding(&device)?;

    let output = embedding.forward(&[2, 0, 1, 2])?;

    assert_eq!(output.dims(), &[4, 4]);
    assert_eq!(
        output.to_vec2::<f32>()?,
        vec![
            vec![20., 21., 22., 23.],
            vec![0., 1., 2., 3.],
            vec![10., 11., 12., 13.],
            vec![20., 21., 22., 23.],
        ]
    );
    Ok(())
}

#[test]
fn batch_shape_and_bounds() -> candle_core::Result<()> {
    let device = Device::Cpu;
    let embedding = random_embedding(16, 5, &device);
    let ids = Tensor::new(&[[1u32, 2], [3, 4]], &device)?;
    assert_eq!(embedding.forward_tensor(&ids)?.dims(), &[2, 2, 5]);
    assert!(embedding.forward(&[16]).is_err());
    Ok(())
}

#[test]
fn batch_forward_requires_two_dimensional_ids() -> candle_core::Result<()> {
    let device = Device::Cpu;
    let embedding = random_embedding(8, 3, &device);
    let one_dimensional = Tensor::new(&[1u32, 2], &device)?;
    assert!(embedding.forward_tensor(&one_dimensional).is_err());
    let wrong_dtype = Tensor::new(&[[1i64, 2]], &device)?;
    assert!(embedding.forward_tensor(&wrong_dtype).is_err());
    Ok(())
}

#[test]
fn out_of_range_ids_are_reported_with_their_position() {
    let device = Device::Cpu;
    let embedding = random_embedding(4, 2, &device);
    let message = embedding.forward(&[0, 3, 9]).unwrap_err().to_string();
    assert!(message.contains("embedding token id 9 at index 2 is out of range for vocabulary size 4"));
    let batch = Tensor::new(&[[0u32, 1], [7, 2]], &device).unwrap();
    let message = embedding.forward_tensor(&batch).unwrap_err().to_string();
    assert!(message.contains("embedding token id 7 at index 2 is out of range for vocabulary size 4"));
}

#[test]
fn rank_errors_show_the_dimensions() {
    let device = Device::Cpu;
    let embedding = random_embedding(4, 2, &device);
    let cube = Tensor::new(&[[[1u32], [2]]], &device).unwrap();
    let message = embedding.forward_tensor(&cube).unwrap_err().to_string();
    assert!(message.contains("embedding input must have shape [batch, seq_len], got [1, 2, 1]"));
}

#[test]
fn single_token_id_maps_to_vector() -> candle_core::Result<()> {
    let device = Device::Cpu;
    let embedding = fixed_embedding(&device)?;
    for (id, row) in [
        (0u32, vec![0f32, 1., 2., 3.]),
        (1, vec![10., 11., 12., 13.]),
        (2, vec![20., 21., 22., 23.]),
    ] {
        let output = embedding.forward(&[id])?;
        assert_eq!(output.dims(), &[1, 4]);
        assert_eq!(output.to_vec2::<f32>()?, vec![row]);
    }
    assert_eq!(embedding.vocab_size(), 3);
    assert_eq!(embedding.d_model(), 4);
    Ok(())
}

#[test]
fn id_values_are_checked_against_the_vocabulary() {
    assert_eq!(check_token_ids(&[0, 3, 1], 4), Ok(()));
    assert_eq!(check_token_ids(&[], 0), Ok(()));
    assert_eq!(
        check_token_ids(&[0, 5, 9], 4),
        Err("embedding token id 5 at index 1 is out of range for vocabulary size 4".to_string())
    );
}

#[test]
fn two_dimensional_ids_preserve_batch_shape() -> candle_core::Result<()> {
    let device = Device::Cpu;
    let embedding = fixed_embedding(&device)?;
    let ids = Tensor::new(&[[2u32, 0], [1, 2]], &device)?;
    let output = embedding.forward_tensor(&ids)?;
    assert_eq!(output.dims(), &[2, 2, 4]);
    assert_eq!(
        output.to_vec3::<f32>()?,
        vec![
            vec![vec![20., 21., 22., 23.], vec![0., 1., 2., 3.]],
            vec![vec![10., 11., 12., 13.], vec![20., 21., 22., 23.]],
        ]
    );
    assert!(embedding.forward(&[3]).is_err());
    assert!(embedding.forward(&[0, 4]).is_err());
    Ok(())
}
