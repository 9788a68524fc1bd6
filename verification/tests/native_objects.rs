use nrd::{final_state, slice_count, CommandBuffer, Device, Texture, VKBindingOffsets};

#[test]
fn device_from_null_handle_is_none() {
    assert!(Device::from_handle(0).is_none());
}

#[test]
fn device_keeps_its_handle_and_releases_it() {
    let device = Device::from_handle(0x7f00_1000).unwrap();
    assert_eq!(device.handle(), 0x7f00_1000);
    assert_eq!(device.release_target(), Some(0x7f00_1000));
}

#[test]
fn texture_from_null_handle_is_none() {
    let device = Device::from_handle(0x10).unwrap();
    assert!(Texture::from_handle(&device, 0).is_none());
}

#[test]
fn texture_is_released_through_its_device() {
    let device = Device::from_handle(0x10).unwrap();
    let texture = Texture::from_handle(&device, 0x20).unwrap();
    assert_eq!(texture.handle(), 0x20);
    assert_eq!(texture.device(), 0x10);
    assert_eq!(texture.release_args(), Some((0x10, 0x20)));
}

#[test]
fn command_buffer_from_null_handle_is_none() {
    let device = Device::from_handle(0x10).unwrap();
    assert!(CommandBuffer::from_handle(&device, 0).is_none());
}

#[test]
fn command_buffer_is_released_through_its_device() {
    let device = Device::from_handle(0x30).unwrap();
    let buffer = CommandBuffer::from_handle(&device, 0x40).unwrap();
    assert_eq!(buffer.handle(), 0x40);
    assert_eq!(buffer.device(), 0x30);
    assert_eq!(buffer.release_args(), Some((0x30, 0x40)));
}

#[test]
fn objects_of_two_devices_keep_their_own_device() {
    let first = Device::from_handle(0x100).unwrap();
    let second = Device::from_handle(0x200).unwrap();
    let a = Texture::from_handle(&first, 0x110).unwrap();
    let b = Texture::from_handle(&second, 0x210).unwrap();
    assert_eq!(a.release_args(), Some((0x100, 0x110)));
    assert_eq!(b.release_args(), Some((0x200, 0x210)));
}

#[test]
fn slice_count_of_empty_slice_is_zero() {
    let items: Vec<u64> = Vec::new();
    assert_eq!(slice_count(items.as_slice()), 0);
}

#[test]
fn slice_count_is_the_length() {
    let items = vec![7u32, 8, 9, 10, 11];
    assert_eq!(slice_count(items.as_slice()), 5);
    let denoisers = vec![3u32];
    assert_eq!(slice_count(denoisers.as_slice()), 1);
}

#[test]
fn final_state_on_success_is_what_was_written() {
    assert_eq!(final_state(true, 0x4u32, 2u8, 0x10u32), Some((0x4, 2, 0x10)));
}

#[test]
fn final_state_on_failure_is_none() {
    assert_eq!(final_state(false, 0x4u32, 2u8, 0x10u32), None);
}

#[test]
fn binding_offsets_default() {
    let offsets = VKBindingOffsets::default();
    assert_eq!(offsets.sRegister, 0);
    assert_eq!(offsets.tRegister, 1);
    assert_eq!(offsets.bRegister, 2);
    assert_eq!(offsets.uRegister, 3);
    assert_eq!(
        offsets,
        VKBindingOffsets { sRegister: 0, tRegister: 1, bRegister: 2, uRegister: 3 }
    );
}
