use luminance::mem_backend::MemBackend;
use luminance::shader::ShaderData;
use luminance::shader::ShaderDataError;

#[test]
fn point_access_past_the_capacity_is_no_value() {
    let mut b = MemBackend::new();
    let mut data = b.new_shader_data(vec![1u32, 2, 3]).unwrap();
    assert_eq!(MemBackend::get_shader_data(&data, 0), Some(1));
    assert_eq!(MemBackend::get_shader_data(&data, 2), Some(3));
    // out of range is a normal "no value", never an error
    assert_eq!(MemBackend::get_shader_data(&data, 3), None);
    assert_eq!(MemBackend::get_shader_data(&data, 1000), None);
    assert_eq!(MemBackend::set_shader_data(&mut data, 3, 9), None);
    assert_eq!(MemBackend::get_shader_data(&data, 2), Some(3));
}

#[test]
fn point_set_writes_one_slot() {
    let mut b = MemBackend::new();
    let mut data = b.new_shader_data(vec![0u32; 4]).unwrap();
    assert_eq!(MemBackend::set_shader_data(&mut data, 2, 7), Some(()));
    assert_eq!(MemBackend::get_shader_data(&data, 1), Some(0));
    assert_eq!(MemBackend::get_shader_data(&data, 2), Some(7));
    assert_eq!(MemBackend::get_shader_data(&data, 3), Some(0));
}

#[test]
fn ranged_update_overwrites_exactly_its_interval() {
    let mut b = MemBackend::new();
    let mut data = b.new_shader_data((0u32..8).collect()).unwrap();
    MemBackend::update_shader_data(&mut data, 2, vec![90, 91, 92]).unwrap();
    let expected = [0, 1, 90, 91, 92, 5, 6, 7];
    for (i, want) in expected.iter().enumerate() {
        assert_eq!(MemBackend::get_shader_data(&data, i), Some(*want));
    }
}

#[test]
fn ranged_update_past_the_capacity_is_refused_untouched() {
    let mut b = MemBackend::new();
    let mut data = b.new_shader_data((0u32..4).collect()).unwrap();
    let err = MemBackend::update_shader_data(&mut data, 2, vec![9, 9, 9]).unwrap_err();
    assert!(matches!(err, ShaderDataError::UpdateError(_)));
    for i in 0..4 {
        assert_eq!(MemBackend::get_shader_data(&data, i), Some(i as u32));
    }
}

#[test]
fn hundred_vectors_update_and_out_of_range_get() {
    // a capacity-100 array of 2-float vectors, zero-initialized
    let mut b = MemBackend::new();
    let zeroes: Vec<[f32; 2]> = vec![[0.0, 0.0]; 100];
    let mut data = b.new_shader_data(zeroes).unwrap();
    let fresh: Vec<[f32; 2]> = (0..100).map(|i| [i as f32, -(i as f32)]).collect();
    MemBackend::update_shader_data(&mut data, 0, fresh.clone()).unwrap();
    assert_eq!(MemBackend::get_shader_data(&data, 99), Some([99.0, -99.0]));
    assert_eq!(MemBackend::get_shader_data(&data, 150), None);
}

#[test]
fn capacity_is_fixed_at_construction() {
    let mut b = MemBackend::new();
    let mut data = b.new_shader_data(vec![5u8; 10]).unwrap();
    // a full-range update succeeds, one element more is refused
    MemBackend::update_shader_data(&mut data, 0, vec![1u8; 10]).unwrap();
    assert!(MemBackend::update_shader_data(&mut data, 0, vec![1u8; 11]).is_err());
    assert!(MemBackend::update_shader_data(&mut data, 10, vec![1u8]).is_err());
    assert_eq!(MemBackend::update_shader_data(&mut data, 10, vec![]), Ok(()));
}
