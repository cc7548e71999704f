use app_libs::identifiers::{self, generate, nanoid, ulid, uuid};

#[test]
fn test_generate() {
    let id = generate();
    assert!(!id.is_empty());
}

#[test]
fn test_default_ulid_export() {
    let id: identifiers::Id = generate();
    // Should be a string with ULID format
    assert_eq!(id.len(), 26);
}

#[test]
fn test_uuid_only_export() {
    let id = uuid::generate();
    // Should be a UUID
    assert_eq!(id.to_string().len(), 36);
}

#[test]
fn test_nanoid_only_export() {
    let id = nanoid::generate();
    // Should be a nanoid string
    assert_eq!(id.len(), 21);
}

#[test]
fn test_nanoid_generate() {
    let id = nanoid::generate();
    assert!(!id.is_empty());
    assert_eq!(id.len(), 21); // Default nanoid length
}

#[test]
fn test_nanoid_multiple_generations_unique() {
    let id1 = nanoid::generate();
    let id2 = nanoid::generate();
    assert_ne!(id1, id2);
}

#[test]
fn test_nanoid_character_set() {
    let id = nanoid::generate();

    // All characters should be alphanumeric only
    for char in id.chars() {
        assert!(
            char.is_ascii_alphanumeric(),
            "Character '{char}' is not alphanumeric",
        );
    }

    // Should not contain special characters
    assert!(!id.contains('_'));
    assert!(!id.contains('-'));
}

#[test]
fn test_ulid_generate() {
    let id = ulid::generate();
    assert!(!id.is_empty());
    assert_eq!(id.len(), 26); // ULID is always 26 characters
}

#[test]
fn test_ulid_multiple_generations_unique() {
    let id1 = ulid::generate();
    let id2 = ulid::generate();
    assert_ne!(id1, id2);
}

#[test]
fn test_ulid_format() {
    let id = ulid::generate();
    // ULID should be base32 encoded, all uppercase
    assert!(id.chars().all(
        |c| c.is_ascii_alphanumeric() && c.is_ascii_uppercase() || "0123456789".contains(c)
    ));
}

#[test]
fn test_uuid_generate() {
    let id = uuid::generate();
    assert!(!id.to_string().is_empty());
    assert_eq!(id.get_version(), Some(uuid::Version::SortRand)); // v7
}

#[test]
fn test_uuid_multiple_generations_unique() {
    let id1 = uuid::generate();
    let id2 = uuid::generate();
    assert_ne!(id1, id2);
}

#[test]
fn test_uuid_format() {
    let id = uuid::generate();
    let id_str = id.to_string();

    // UUID v7 format: 8-4-4-4-12 characters
    assert_eq!(id_str.len(), 36);
    assert_eq!(id_str.chars().filter(|&c| c == '-').count(), 4);

    // Check format with regex-like validation
    let parts: Vec<&str> = id_str.split('-').collect();
    assert_eq!(parts.len(), 5);
    assert_eq!(parts[0].len(), 8);
    assert_eq!(parts[1].len(), 4);
    assert_eq!(parts[2].len(), 4);
    assert_eq!(parts[3].len(), 4);
    assert_eq!(parts[4].len(), 12);
}

#[test]
fn uuid_text_of_known_value() {
    let id = uuid::Id::from_u128(0x017f22e2_79b0_7cc3_98c4_dc0c0c07398f);
    assert_eq!(id.to_string(), "017f22e2-79b0-7cc3-98c4-dc0c0c07398f");
    assert_eq!(id.get_version(), Some(uuid::Version::SortRand));
    assert_eq!(id.as_u128(), 0x017f22e2_79b0_7cc3_98c4_dc0c0c07398f);
}

#[test]
fn uuid_versions_of_special_values() {
    assert_eq!(uuid::Id::from_u128(0).get_version(), Some(uuid::Version::Nil));
    assert_eq!(uuid::Id::from_u128(u128::MAX).get_version(), Some(uuid::Version::Max));
    let v4 = 0x67e55044_10b1_426f_9247_bb680e5fe0c8u128;
    assert_eq!(uuid::Id::from_u128(v4).get_version(), Some(uuid::Version::Random));
    let unknown = 0x67e55044_10b1_926f_9247_bb680e5fe0c8u128;
    assert_eq!(uuid::Id::from_u128(unknown).get_version(), None);
}

#[test]
fn generated_uuid_has_version_and_variant() {
    let id = uuid::generate();
    let v = id.as_u128();
    assert_eq!((v >> 76) & 0xf, 7);
    assert_eq!((v >> 62) & 0x3, 2);
}

#[test]
fn uuid_text_sorts_like_value() {
    let a = uuid::Id::from_u128(0x0000_0000_0000_7000_8000_0000_0000_00ff);
    let b = uuid::Id::from_u128(0x0000_0000_0000_7000_8000_0000_0000_0100);
    assert!(a.as_u128() < b.as_u128());
    assert!(a.to_string() < b.to_string());
}

#[test]
fn nanoid_alphabet_is_alphanumeric() {
    assert_eq!(nanoid::ALPHANUMERIC_ALPHABET.len(), 62);
    assert!(nanoid::ALPHANUMERIC_ALPHABET.iter().all(|c| c.is_ascii_alphanumeric()));
}

#[test]
fn ulid_text_is_crockford_base32_of_value() {
    let alphabet: Vec<char> = "0123456789ABCDEFGHJKMNPQRSTVWXYZ".chars().collect();
    for v in [0u128, 1, 31, 32, 0x0123_4567_89ab_cdef_fedc_ba98_7654_3210, u128::MAX] {
        let mut expected = String::new();
        for i in 0..26u32 {
            let d = (v >> (5 * (25 - i))) & 31;
            expected.push(alphabet[d as usize]);
        }
        assert_eq!(::ulid::Ulid(v).to_string(), expected);
    }
    assert!(::ulid::Ulid(0xff).to_string() < ::ulid::Ulid(0x100).to_string());
    assert!(::ulid::Ulid(u128::MAX - 1).to_string() < ::ulid::Ulid(u128::MAX).to_string());
}
