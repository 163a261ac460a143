use wordvm::error::VmError;
use wordvm::num::from_hex;
use wordvm::num::from_hex_slice;
use wordvm::num::kind_of;
use wordvm::num::resolve_register_index;
use wordvm::num::NumType;

#[test]
fn classify_covers_the_three_ranges() {
    assert_eq!(kind_of(0), NumType::LITERAL);
    assert_eq!(kind_of(12345), NumType::LITERAL);
    assert_eq!(kind_of(32767), NumType::LITERAL);
    assert_eq!(kind_of(32768), NumType::REGISTER);
    assert_eq!(kind_of(32775), NumType::REGISTER);
    assert_eq!(kind_of(32776), NumType::INVALID);
    assert_eq!(kind_of(65535), NumType::INVALID);
}

#[test]
fn register_index_resolution() {
    assert_eq!(resolve_register_index(32768), Ok(0));
    assert_eq!(resolve_register_index(32771), Ok(3));
    assert_eq!(resolve_register_index(32775), Ok(7));
    assert_eq!(resolve_register_index(0), Err(VmError::NotARegister));
    assert_eq!(resolve_register_index(32767), Err(VmError::NotARegister));
    assert_eq!(resolve_register_index(32776), Err(VmError::NotARegister));
}

#[test]
fn word_pairs_are_little_endian() {
    assert_eq!(from_hex(&[0x34, 0x12]), Ok(0x1234));
    assert_eq!(from_hex(&[65, 0]), Ok(65));
    assert_eq!(from_hex(&[0, 128]), Ok(32768));
    assert_eq!(from_hex(&[1]), Err(VmError::MalformedImage));
    assert_eq!(from_hex(&[1, 2, 3]), Err(VmError::MalformedImage));
}

#[test]
fn image_decodes_to_words() {
    let words = from_hex_slice(&[65, 0, 0, 1, 0xFF, 0xFF]).unwrap();
    assert_eq!(words, vec![65, 256, 65535]);
    let empty = from_hex_slice(&[]).unwrap();
    assert_eq!(empty, Vec::<u16>::new());
}

#[test]
fn odd_image_is_malformed() {
    assert_eq!(from_hex_slice(&[65, 0, 7]), Err(VmError::MalformedImage));
}
