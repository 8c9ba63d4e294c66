use mayhem_rs::netcode::{name_bytes, Username, NAME_BYTES, NETCODE_USER_DATA_BYTES, PORT, PROTOCOL_ID};

#[test]
fn name_is_framed_behind_its_length() {
    let data = Username("Merlin".to_string()).to_netcode_user_data();
    assert_eq!(data.len(), NETCODE_USER_DATA_BYTES);
    assert_eq!(&data[0..8], &[6, 0, 0, 0, 0, 0, 0, 0]);
    assert_eq!(&data[8..14], b"Merlin");
    assert!(data[14..].iter().all(|b| *b == 0));
}

#[test]
fn framed_name_is_read_back() {
    for name in ["", "a", "Merlin", "Zauberer Grün", "魔法使い"] {
        let data = Username(name.to_string()).to_netcode_user_data();
        assert_eq!(name_bytes(&data), name.as_bytes());
        assert_eq!(Username::from_user_data(&data).0, name);
    }
    let longest = "x".repeat(NAME_BYTES);
    let data = Username(longest.clone()).to_netcode_user_data();
    assert_eq!(&data[0..8], &[248, 0, 0, 0, 0, 0, 0, 0]);
    assert_eq!(Username::from_user_data(&data).0, longest);
}

#[test]
fn length_beyond_the_room_is_cut() {
    let mut data = [b'y'; 256];
    data[0..8].copy_from_slice(&u64::MAX.to_le_bytes());
    assert_eq!(name_bytes(&data), vec![b'y'; 248]);
    data[0..8].copy_from_slice(&249u64.to_le_bytes());
    assert_eq!(Username::from_user_data(&data).0, "y".repeat(248));
    data[0..8].copy_from_slice(&(1u64 << 32).to_le_bytes());
    assert_eq!(name_bytes(&data).len(), 248);
    data[0..8].copy_from_slice(&3u64.to_le_bytes());
    assert_eq!(Username::from_user_data(&data).0, "yyy");
    data[0..8].copy_from_slice(&0x0100u64.to_le_bytes());
    assert_eq!(name_bytes(&data).len(), 248);
}

#[test]
fn protocol_numbers() {
    assert_eq!(PROTOCOL_ID, 1000);
    assert_eq!(PORT, 42096);
    assert_eq!(NETCODE_USER_DATA_BYTES, 256);
}
