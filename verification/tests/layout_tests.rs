use giza_benchmark::layout::{layout_str_to_enum, Layout};

#[test]
fn every_layout_by_its_name() {
    let cases = [
        ("plain", Layout::Plain),
        ("small", Layout::Small),
        ("dex", Layout::Dex),
        ("recursive", Layout::Recursive),
        ("starknet", Layout::Starknet),
        ("starknet_with_keccak", Layout::StarknetWithKeccak),
        ("recursive_large_output", Layout::RecursiveLargeOutput),
        ("recursive_with_poseidon", Layout::RecursiveWithPoseidon),
        ("all_solidity", Layout::AllSolidity),
        ("all_cairo", Layout::AllCairo),
    ];
    for (name, layout) in cases {
        assert_eq!(layout_str_to_enum(name), layout);
    }
}

#[test]
fn unknown_names_choose_plain() {
    assert_eq!(layout_str_to_enum(""), Layout::Plain);
    assert_eq!(layout_str_to_enum("dynamic"), Layout::Plain);
    assert_eq!(layout_str_to_enum("ALL_CAIRO"), Layout::Plain);
    assert_eq!(layout_str_to_enum("all_cairo "), Layout::Plain);
}
