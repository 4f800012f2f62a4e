use farmer_core::address::derive_config_address;
use farmer_core::states::{seed_bytes, DomainTag, Identity};

#[test]
fn config_address_derivation_is_deterministic() {
    let pid = Identity::filled(7);
    let first = derive_config_address(&pid).expect("a bump must be found for this id");
    let second = derive_config_address(&pid).expect("a bump must be found for this id");
    assert_eq!(first.0, second.0);
    assert_eq!(first.1, second.1);
}

#[test]
fn derived_address_is_not_the_program_id() {
    let pid = Identity::filled(7);
    let (address, _bump) = derive_config_address(&pid).expect("a bump must be found for this id");
    assert_eq!(address.bytes.len(), 32);
    assert_ne!(address, pid);
}

#[test]
fn config_seed_is_the_ascii_tag() {
    assert_eq!(seed_bytes(&DomainTag::Config), b"config".to_vec());
    assert_eq!(seed_bytes(&DomainTag::Warehouse), b"warehouse".to_vec());
    assert_eq!(seed_bytes(&DomainTag::Escrow), b"escrow".to_vec());
}

#[test]
fn domain_seeds_are_pairwise_distinct() {
    let tags = [
        DomainTag::Config,
        DomainTag::Warehouse,
        DomainTag::Farmer,
        DomainTag::Customer,
        DomainTag::WCustomer,
        DomainTag::Pack,
        DomainTag::Offer,
        DomainTag::Order,
        DomainTag::Escrow,
    ];
    for (i, a) in tags.iter().enumerate() {
        for (j, b) in tags.iter().enumerate() {
            if i != j {
                assert_ne!(seed_bytes(a), seed_bytes(b));
            }
        }
    }
}
