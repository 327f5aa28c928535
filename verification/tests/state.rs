use rosen_bridge::error::DecodeError;
use rosen_bridge::processor::{BridgeConfig, BridgeData};
use rosen_bridge::state::BRIDGE_DATA_LEN;

fn sample() -> BridgeData {
    BridgeData {
        guardian_set_index: 3,
        last_lamports: 0x0102_0304_0506_0708,
        config: BridgeConfig { guardian_set_expiration_time: 86_400, fee: 250 },
    }
}

#[test]
fn bridge_data_is_stored_field_by_field() {
    let bytes = sample().to_vec();
    assert_eq!(
        bytes,
        vec![
            3, 0, 0, 0, // guardian_set_index
            8, 7, 6, 5, 4, 3, 2, 1, // last_lamports
            0x80, 0x51, 0x01, 0x00, // guardian_set_expiration_time
            250, 0, 0, 0, 0, 0, 0, 0, // fee
        ]
    );
    assert_eq!(bytes.len(), BRIDGE_DATA_LEN);
}

#[test]
fn bridge_data_round_trip() {
    for record in [
        sample(),
        BridgeData {
            guardian_set_index: 0,
            last_lamports: 0,
            config: BridgeConfig { guardian_set_expiration_time: 0, fee: 0 },
        },
        BridgeData {
            guardian_set_index: u32::MAX,
            last_lamports: u64::MAX,
            config: BridgeConfig { guardian_set_expiration_time: u32::MAX, fee: u64::MAX },
        },
    ] {
        assert_eq!(BridgeData::try_from_slice(&record.to_vec()), Ok(record));
    }
}

#[test]
fn short_bridge_data_is_rejected() {
    let bytes = sample().to_vec();
    for n in 0..bytes.len() {
        assert_eq!(BridgeData::try_from_slice(&bytes[..n]), Err(DecodeError::UnexpectedEnd));
    }
}

#[test]
fn long_bridge_data_is_rejected() {
    let mut bytes = sample().to_vec();
    bytes.push(0);
    assert_eq!(BridgeData::try_from_slice(&bytes), Err(DecodeError::TrailingBytes));
}

#[test]
fn bridge_data_agrees_with_borsh() {
    let record = sample();
    assert_eq!(
        record.to_vec(),
        borsh::to_vec(&(3u32, 0x0102_0304_0506_0708u64, (86_400u32, 250u64))).unwrap()
    );
    let bytes = borsh::to_vec(&(9u32, 10u64, (11u32, 12u64))).unwrap();
    assert_eq!(
        BridgeData::try_from_slice(&bytes),
        Ok(BridgeData {
            guardian_set_index: 9,
            last_lamports: 10,
            config: BridgeConfig { guardian_set_expiration_time: 11, fee: 12 },
        })
    );
}
