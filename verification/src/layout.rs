use vstd::prelude::*;

verus! {

/// The memory layouts a Cairo run can use, by the name cairo-vm gives them.
#[derive(Debug, Clone, Copy, PartialEq, Eq)]
pub enum Layout {
    Plain,
    Small,
    Dex,
    Recursive,
    Starknet,
    StarknetWithKeccak,
    RecursiveLargeOutput,
    RecursiveWithPoseidon,
    AllSolidity,
    AllCairo,
}

/// The name under which a layout is chosen.
pub open spec fn layout_name(l: Layout) -> Seq<char> {
    match l {
        Layout::Plain => "plain"@,
        Layout::Small => "small"@,
        Layout::Dex => "dex"@,
        Layout::Recursive => "recursive"@,
        Layout::Starknet => "starknet"@,
        Layout::StarknetWithKeccak => "starknet_with_keccak"@,
        Layout::RecursiveLargeOutput => "recursive_large_output"@,
        Layout::RecursiveWithPoseidon => "recursive_with_poseidon"@,
        Layout::AllSolidity => "all_solidity"@,
        Layout::AllCairo => "all_cairo"@,
    }
}

/// The layout a name chooses: the one of that name, or `Plain` for a name
/// that is no layout's.
pub open spec fn layout_of_name(s: Seq<char>) -> Layout {
    if s == "plain"@ {
        Layout::Plain
    } else if s == "small"@ {
        Layout::Small
    } else if s == "dex"@ {
        Layout::Dex
    } else if s == "recursive"@ {
        Layout::Recursive
    } else if s == "starknet"@ {
        Layout::Starknet
    } else if s == "starknet_with_keccak"@ {
        Layout::StarknetWithKeccak
    } else if s == "recursive_large_output"@ {
        Layout::RecursiveLargeOutput
    } else if s == "recursive_with_poseidon"@ {
        Layout::RecursiveWithPoseidon
    } else if s == "all_solidity"@ {
        Layout::AllSolidity
    } else if s == "all_cairo"@ {
        Layout::AllCairo
    } else {
        Layout::Plain
    }
}

fn str_eq(a: &str, b: &str) -> (eq: bool)
    ensures
        eq == (a@ == b@),
{
    a.to_owned() == b.to_owned()
}

/// The layout a name chooses, as `layout_of_name` says.
pub fn layout_str_to_enum(name: &str) -> (l: Layout)
    ensures
        l == layout_of_name(name@),
{
    if str_eq(name, "plain") {
        Layout::Plain
    } else if str_eq(name, "small") {
        Layout::Small
    } else if str_eq(name, "dex") {
        Layout::Dex
    } else if str_eq(name, "recursive") {
        Layout::Recursive
    } else if str_eq(name, "starknet") {
        Layout::Starknet
    } else if str_eq(name, "starknet_with_keccak") {
        Layout::StarknetWithKeccak
    } else if str_eq(name, "recursive_large_output") {
        Layout::RecursiveLargeOutput
    } else if str_eq(name, "recursive_with_poseidon") {
        Layout::RecursiveWithPoseidon
    } else if str_eq(name, "all_solidity") {
        Layout::AllSolidity
    } else if str_eq(name, "all_cairo") {
        Layout::AllCairo
    } else {
        Layout::Plain
    }
}

/// Every layout is chosen by its own name.
pub proof fn layout_name_round_trip(l: Layout)
    ensures
        layout_of_name(layout_name(l)) == l,
{
    reveal_strlit("plain");
    reveal_strlit("small");
    reveal_strlit("dex");
    reveal_strlit("recursive");
    reveal_strlit("starknet");
    reveal_strlit("starknet_with_keccak");
    reveal_strlit("recursive_large_output");
    reveal_strlit("recursive_with_poseidon");
    reveal_strlit("all_solidity");
    reveal_strlit("all_cairo");
    assert("plain"@.len() == 5 && "plain"@[0] == 'p');
    assert("small"@.len() == 5 && "small"@[0] == 's');
    assert("dex"@.len() == 3);
    assert("recursive"@.len() == 9 && "recursive"@[0] == 'r');
    assert("starknet"@.len() == 8);
    assert("starknet_with_keccak"@.len() == 20);
    assert("recursive_large_output"@.len() == 22);
    assert("recursive_with_poseidon"@.len() == 23);
    assert("all_solidity"@.len() == 12);
    assert("all_cairo"@.len() == 9 && "all_cairo"@[0] == 'a');
}

/// A name chooses a layout other than `Plain` only if it is that layout's
/// name.
pub proof fn layout_only_by_name(s: Seq<char>)
    ensures
        layout_of_name(s) != Layout::Plain ==> s == layout_name(layout_of_name(s)),
{
}

} // verus!
