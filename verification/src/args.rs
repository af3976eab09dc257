use crate::felt::{is_dec_digit, is_decimal_literal, magnitude_text, parse_felt, parsed_felt, Felt252};
use vstd::prelude::*;

verus! {

broadcast use vstd::string::group_string_axioms;

/// One argument of a Cairo program: a single field element, or an array of
/// them.
#[derive(Debug, Clone, PartialEq, Eq)]
pub enum FuncArg {
    Single(Felt252),
    Array(Vec<Felt252>),
}

/// The arguments of a Cairo program, in order.
#[derive(Debug, Clone, PartialEq, Eq, Default)]
pub struct FuncArgs(pub Vec<FuncArg>);

/// An argument as its field elements' byte encodings.
pub enum FuncArgView {
    Single(Seq<u8>),
    Array(Seq<Seq<u8>>),
}

pub open spec fn felts_view(v: Seq<Felt252>) -> Seq<Seq<u8>> {
    v.map_values(|f: Felt252| f@)
}

impl View for FuncArg {
    type V = FuncArgView;

    open spec fn view(&self) -> FuncArgView {
        match self {
            FuncArg::Single(f) => FuncArgView::Single(f@),
            FuncArg::Array(v) => FuncArgView::Array(felts_view(v@)),
        }
    }
}

pub open spec fn func_args_view(v: Seq<FuncArg>) -> Seq<FuncArgView> {
    v.map_values(|a: FuncArg| a@)
}

impl View for FuncArgs {
    type V = Seq<FuncArgView>;

    open spec fn view(&self) -> Seq<FuncArgView> {
        func_args_view(self.0@)
    }
}

/// The pieces of a text between its spaces, as `str::split(' ')` yields
/// them: one more piece than there are spaces, empty pieces included.
pub open spec fn split_spaces(s: Seq<char>) -> Seq<Seq<char>>
    decreases s.len(),
{
    if s.len() == 0 {
        seq![Seq::<char>::empty()]
    } else {
        let prev = split_spaces(s.drop_last());
        if s.last() == ' ' {
            prev.push(Seq::<char>::empty())
        } else {
            prev.update(prev.len() - 1, prev.last().push(s.last()))
        }
    }
}

/// Where the reading of the pieces stands: the arguments completed so far,
/// and the elements of an array that has been opened and not yet closed.
#[verifier::ext_equal]
pub struct ArgScan {
    pub args: Seq<FuncArgView>,
    pub open: Option<Seq<Seq<u8>>>,
}

/// Reads one piece. Outside an array, a piece that starts with `[` opens an
/// array whose first element is the rest of the piece, and any other piece
/// is a single element. Inside an array, a piece that ends with `]` is the
/// last element, without that bracket, and closes the array; any other piece
/// is one more element. `None` where an element is not a field element.
pub open spec fn scan_piece(st: ArgScan, t: Seq<char>) -> Option<ArgScan> {
    match st.open {
        None => {
            if t.len() > 0 && t[0] == '[' {
                match parsed_felt(t.drop_first()) {
                    Some(f) => Some(ArgScan { args: st.args, open: Some(seq![f]) }),
                    None => None,
                }
            } else {
                match parsed_felt(t) {
                    Some(f) => Some(ArgScan { args: st.args.push(FuncArgView::Single(f)), open: None }),
                    None => None,
                }
            }
        },
        Some(elems) => {
            if t.len() > 0 && t.last() == ']' {
                match parsed_felt(t.drop_last()) {
                    Some(f) => Some(
                        ArgScan { args: st.args.push(FuncArgView::Array(elems.push(f))), open: None },
                    ),
                    None => None,
                }
            } else {
                match parsed_felt(t) {
                    Some(f) => Some(ArgScan { args: st.args, open: Some(elems.push(f)) }),
                    None => None,
                }
            }
        },
    }
}

/// Reads the pieces in order, from no arguments and no open array.
pub open spec fn scan_pieces(ts: Seq<Seq<char>>) -> Option<ArgScan>
    decreases ts.len(),
{
    if ts.len() == 0 {
        Some(ArgScan { args: seq![], open: None })
    } else {
        match scan_pieces(ts.drop_last()) {
            Some(st) => scan_piece(st, ts.last()),
            None => None,
        }
    }
}

/// The arguments that a text of space-separated decimal numbers denotes,
/// with `[` before the first and `]` after the last element of an array;
/// the empty text denotes no argument. `None` where an element is not a
/// field element or an array is left open at the end.
pub open spec fn args_of_text(s: Seq<char>) -> Option<Seq<FuncArgView>> {
    if s.len() == 0 {
        Some(seq![])
    } else {
        match scan_pieces(split_spaces(s)) {
            Some(st) => if st.open is None {
                Some(st.args)
            } else {
                None
            },
            None => None,
        }
    }
}

pub proof fn lemma_split_spaces_nonempty(s: Seq<char>)
    ensures
        split_spaces(s).len() >= 1,
    decreases s.len(),
{
    if s.len() > 0 {
        lemma_split_spaces_nonempty(s.drop_last());
    }
}

/// The reading state in executable form.
struct Scan {
    args: Vec<FuncArg>,
    open: Option<Vec<Felt252>>,
}

spec fn scan_view(st: Scan) -> ArgScan {
    ArgScan {
        args: func_args_view(st.args@),
        open: match st.open {
            Some(v) => Some(felts_view(v@)),
            None => None,
        },
    }
}

fn chars_of(value: &str) -> (cs: Vec<char>)
    ensures
        cs@ == value@,
{
    let mut cs: Vec<char> = Vec::new();
    for c in it: value.chars()
        invariant
            it.seq() == value@,
            cs@ == it.seq().take(it.index() as int),
    {
        cs.push(c);
    }
    cs
}

/// Reads the piece `cs[start..end]` into the state, as `scan_piece` says.
fn scan_one(cs: &Vec<char>, start: usize, end: usize, st: Scan) -> (r: Option<Scan>)
    requires
        start <= end <= cs.len(),
    ensures
        match r {
            Some(st2) => scan_piece(scan_view(st), cs@.subrange(start as int, end as int))
                == Some(scan_view(st2)),
            None => scan_piece(scan_view(st), cs@.subrange(start as int, end as int)) is None,
        },
{
    let ghost t = cs@.subrange(start as int, end as int);
    let ghost old_st = scan_view(st);
    let Scan { mut args, open } = st;
    match open {
        None => {
            if start < end && cs[start] == '[' {
                assert(t.drop_first() =~= cs@.subrange(start + 1, end as int));
                match parse_felt(cs, start + 1, end) {
                    Some(f) => {
                        let mut elems: Vec<Felt252> = Vec::new();
                        elems.push(f);
                        let r = Scan { args, open: Some(elems) };
                        assert(scan_view(r) =~= ArgScan { args: old_st.args, open: Some(seq![f@]) });
                        Some(r)
                    },
                    None => None,
                }
            } else {
                match parse_felt(cs, start, end) {
                    Some(f) => {
                        args.push(FuncArg::Single(f));
                        let r = Scan { args, open: None };
                        assert(func_args_view(r.args@) =~= old_st.args.push(FuncArgView::Single(f@)));
                        Some(r)
                    },
                    None => None,
                }
            }
        },
        Some(mut elems) => {
            let ghost old_elems = felts_view(elems@);
            if start < end && cs[end - 1] == ']' {
                assert(t.drop_last() =~= cs@.subrange(start as int, end - 1));
                match parse_felt(cs, start, end - 1) {
                    Some(f) => {
                        elems.push(f);
                        assert(felts_view(elems@) =~= old_elems.push(f@));
                        args.push(FuncArg::Array(elems));
                        let r = Scan { args, open: None };
                        assert(func_args_view(r.args@) =~= old_st.args.push(
                            FuncArgView::Array(old_elems.push(f@)),
                        ));
                        Some(r)
                    },
                    None => None,
                }
            } else {
                match parse_felt(cs, start, end) {
                    Some(f) => {
                        elems.push(f);
                        assert(felts_view(elems@) =~= old_elems.push(f@));
                        let r = Scan { args, open: Some(elems) };
                        Some(r)
                    },
                    None => None,
                }
            }
        },
    }
}

/// Reads a text of arguments, as `args_of_text` says.
fn read_args(value: &str) -> (r: Option<FuncArgs>)
    ensures
        match r {
            Some(fa) => args_of_text(value@) == Some(fa@),
            None => args_of_text(value@) is None,
        },
{
    if value.is_empty() {
        let r = FuncArgs(Vec::new());
        assert(r@ =~= Seq::<FuncArgView>::empty());
        return Some(r);
    }
    let cs = chars_of(value);
    let n = cs.len();
    let mut st: Option<Scan> = Some(Scan { args: Vec::new(), open: None });
    let mut start: usize = 0;
    let mut i: usize = 0;
    proof {
        assert(cs@.take(0) =~= Seq::<char>::empty());
        assert(split_spaces(cs@.take(0)).drop_last() =~= Seq::<Seq<char>>::empty());
        assert(func_args_view(Seq::<FuncArg>::empty()) =~= Seq::<FuncArgView>::empty());
    }
    while i < n
        invariant
            cs@ == value@,
            n == cs.len(),
            start <= i <= n,
            split_spaces(cs@.take(i as int)).len() >= 1,
            split_spaces(cs@.take(i as int)).last() =~= cs@.subrange(start as int, i as int),
            match st {
                Some(s) => scan_pieces(split_spaces(cs@.take(i as int)).drop_last()) == Some(
                    scan_view(s),
                ),
                None => scan_pieces(split_spaces(cs@.take(i as int)).drop_last()) is None,
            },
        decreases n - i,
    {
        let ghost prev = split_spaces(cs@.take(i as int));
        proof {
            assert(cs@.take(i + 1).drop_last() =~= cs@.take(i as int));
            assert(cs@.take(i + 1).last() == cs@[i as int]);
        }
        if cs[i] == ' ' {
            proof {
                let next = split_spaces(cs@.take(i + 1));
                assert(next == prev.push(Seq::<char>::empty()));
                assert(next.drop_last() =~= prev);
                assert(prev =~= prev.drop_last().push(prev.last()));
            }
            st = match st {
                Some(s) => scan_one(&cs, start, i, s),
                None => None,
            };
            start = i + 1;
            proof {
                assert(cs@.subrange(start as int, i + 1) =~= Seq::<char>::empty());
            }
        } else {
            proof {
                let next = split_spaces(cs@.take(i + 1));
                assert(next == prev.update(prev.len() - 1, prev.last().push(cs@[i as int])));
                assert(next.drop_last() =~= prev.drop_last());
                assert(next.last() =~= cs@.subrange(start as int, i + 1));
            }
        }
        i = i + 1;
    }
    proof {
        assert(cs@.take(n as int) =~= value@);
        let all = split_spaces(value@);
        assert(all =~= all.drop_last().push(all.last()));
    }
    match st {
        None => None,
        Some(s) => match scan_one(&cs, start, n, s) {
            None => None,
            Some(s2) => match s2.open {
                None => Some(FuncArgs(s2.args)),
                Some(_) => None,
            },
        },
    }
}

} // verus!

verus! {

/// Reads the arguments of a Cairo program from a text of space-separated
/// decimal numbers, where `[` before a number opens an array and `]` after a
/// number closes it; the empty text gives no argument. The text must denote
/// arguments (`args_of_text`): a number that is no field element, or an array
/// left open, is outside what this function accepts.
pub fn process_args(value: &str) -> (r: Result<FuncArgs, String>)
    requires
        args_of_text(value@) is Some,
    ensures
        match r {
            Ok(fa) => args_of_text(value@) == Some(fa@),
            Err(_) => false,
        },
{
    match read_args(value) {
        Some(fa) => Ok(fa),
        None => Err(String::new()),
    }
}

/// Whether a text denotes arguments, as `args_of_text` says.
pub fn args_well_formed(value: &str) -> (ok: bool)
    ensures
        ok == (args_of_text(value@) is Some),
{
    match read_args(value) {
        Some(_) => true,
        None => false,
    }
}

/// Reads the arguments of a Cairo program from any text: `None` where the
/// text does not denote arguments, else what `process_args` gives.
pub fn try_process_args(value: &str) -> (r: Option<FuncArgs>)
    ensures
        match r {
            Some(fa) => args_of_text(value@) == Some(fa@),
            None => args_of_text(value@) is None,
        },
{
    if args_well_formed(value) {
        match process_args(value) {
            Ok(fa) => Some(fa),
            Err(_) => None,
        }
    } else {
        None
    }
}

} // verus!

verus! {

/// The reading state with `a1` before the arguments completed so far.
pub open spec fn after_args(a1: Seq<FuncArgView>, st: ArgScan) -> ArgScan {
    ArgScan { args: a1 + st.args, open: st.open }
}

pub open spec fn after_args_opt(a1: Seq<FuncArgView>, st: Option<ArgScan>) -> Option<ArgScan> {
    match st {
        Some(s) => Some(after_args(a1, s)),
        None => None,
    }
}

proof fn lemma_split_spaces_join(s1: Seq<char>, s2: Seq<char>)
    ensures
        split_spaces(s1 + seq![' '] + s2) =~= split_spaces(s1) + split_spaces(s2),
    decreases s2.len(),
{
    let s = s1 + seq![' '] + s2;
    if s2.len() == 0 {
        assert(s.drop_last() =~= s1);
        assert(split_spaces(s2) =~= seq![Seq::<char>::empty()]);
    } else {
        lemma_split_spaces_join(s1, s2.drop_last());
        lemma_split_spaces_nonempty(s2.drop_last());
        assert(s.drop_last() =~= s1 + seq![' '] + s2.drop_last());
        assert(s.last() == s2.last());
    }
}

proof fn lemma_scan_piece_after(a1: Seq<FuncArgView>, st: ArgScan, t: Seq<char>)
    ensures
        scan_piece(after_args(a1, st), t) == after_args_opt(a1, scan_piece(st, t)),
{
    match st.open {
        None => {
            if !(t.len() > 0 && t[0] == '[') {
                if let Some(f) = parsed_felt(t) {
                    assert((a1 + st.args).push(FuncArgView::Single(f)) =~= a1 + st.args.push(
                        FuncArgView::Single(f),
                    ));
                }
            }
        },
        Some(elems) => {
            if t.len() > 0 && t.last() == ']' {
                if let Some(f) = parsed_felt(t.drop_last()) {
                    assert((a1 + st.args).push(FuncArgView::Array(elems.push(f))) =~= a1
                        + st.args.push(FuncArgView::Array(elems.push(f))));
                }
            }
        },
    }
}

proof fn lemma_scan_pieces_join(a1: Seq<FuncArgView>, t1: Seq<Seq<char>>, t2: Seq<Seq<char>>)
    requires
        scan_pieces(t1) == Some(ArgScan { args: a1, open: None }),
    ensures
        scan_pieces(t1 + t2) == after_args_opt(a1, scan_pieces(t2)),
    decreases t2.len(),
{
    if t2.len() == 0 {
        assert(t1 + t2 =~= t1);
        assert(a1 + Seq::<FuncArgView>::empty() =~= a1);
    } else {
        lemma_scan_pieces_join(a1, t1, t2.drop_last());
        assert((t1 + t2).drop_last() =~= t1 + t2.drop_last());
        assert((t1 + t2).last() == t2.last());
        if let Some(st) = scan_pieces(t2.drop_last()) {
            lemma_scan_piece_after(a1, st, t2.last());
        }
    }
}

/// Arguments read from two texts joined by a space are those of the first
/// text followed by those of the second, where the first text is not empty
/// and denotes arguments and the second is not empty; the joined text denotes
/// arguments exactly when the second does.
pub proof fn args_of_joined_text(s1: Seq<char>, s2: Seq<char>)
    requires
        s1.len() > 0,
        s2.len() > 0,
        args_of_text(s1) is Some,
    ensures
        args_of_text(s1 + seq![' '] + s2) == match args_of_text(s2) {
            Some(a2) => Some(args_of_text(s1).unwrap() + a2),
            None => None::<Seq<FuncArgView>>,
        },
{
    let a1 = args_of_text(s1).unwrap();
    lemma_split_spaces_join(s1, s2);
    let st1 = scan_pieces(split_spaces(s1)).unwrap();
    assert(st1 =~= ArgScan { args: a1, open: None });
    lemma_scan_pieces_join(a1, split_spaces(s1), split_spaces(s2));
}

proof fn lemma_split_without_spaces(s: Seq<char>)
    requires
        forall|i: int| 0 <= i < s.len() ==> s[i] != ' ',
    ensures
        split_spaces(s) =~= seq![s],
    decreases s.len(),
{
    if s.len() > 0 {
        let init = s.drop_last();
        assert forall|i: int| 0 <= i < init.len() implies init[i] != ' ' by {
            assert(init[i] == s[i]);
        }
        lemma_split_without_spaces(init);
        assert(s[s.len() - 1] != ' ');
        assert(init.push(s.last()) =~= s);
        let prev = split_spaces(init);
        assert(prev.update(prev.len() - 1, prev.last().push(s.last())) =~= seq![s]);
        assert(split_spaces(s) == prev.update(prev.len() - 1, prev.last().push(s.last())));
    } else {
        assert(s =~= Seq::<char>::empty());
    }
}

/// A text without spaces that does not open an array denotes one single
/// argument where it is a field element: that element.
pub proof fn args_of_one_piece(s: Seq<char>)
    requires
        s.len() > 0,
        forall|i: int| 0 <= i < s.len() ==> s[i] != ' ',
        s[0] != '[',
        parsed_felt(s) is Some,
    ensures
        args_of_text(s) == Some(seq![FuncArgView::Single(parsed_felt(s).unwrap())]),
{
    lemma_split_without_spaces(s);
    let ts = seq![s];
    assert(split_spaces(s) == ts);
    assert(ts.last() == s);
    let empty = ArgScan { args: Seq::<FuncArgView>::empty(), open: None };
    assert(scan_pieces(ts.drop_last()) == Some(empty));
    let f = parsed_felt(s).unwrap();
    assert(scan_piece(empty, s) == Some(
        ArgScan { args: Seq::<FuncArgView>::empty().push(FuncArgView::Single(f)), open: None },
    ));
    assert(scan_pieces(ts) == scan_piece(empty, s));
    assert(ts.drop_last() =~= Seq::<Seq<char>>::empty());
    assert(Seq::<FuncArgView>::empty().push(FuncArgView::Single(parsed_felt(s).unwrap()))
        =~= seq![FuncArgView::Single(parsed_felt(s).unwrap())]);
}

} // verus!

verus! {

/// Every array among the arguments has at least two elements, and an open
/// array at least one.
pub open spec fn arrays_have_two(st: ArgScan) -> bool {
    &&& forall|i: int|
        0 <= i < st.args.len() ==> (#[trigger] st.args[i] matches FuncArgView::Array(e) ==> e.len()
            >= 2)
    &&& (st.open matches Some(e) ==> e.len() >= 1)
}

proof fn lemma_scan_pieces_arrays(ts: Seq<Seq<char>>)
    ensures
        scan_pieces(ts) matches Some(st) ==> arrays_have_two(st),
    decreases ts.len(),
{
    if ts.len() > 0 {
        lemma_scan_pieces_arrays(ts.drop_last());
        if let Some(st) = scan_pieces(ts.drop_last()) {
            if let Some(st2) = scan_piece(st, ts.last()) {
                assert forall|i: int| 0 <= i < st2.args.len() implies (
                #[trigger] st2.args[i] matches FuncArgView::Array(e) ==> e.len() >= 2) by {
                    if i < st.args.len() {
                        assert(st2.args[i] == st.args[i]);
                    }
                }
            }
        }
    }
}

/// An array can only be written with two or more elements: every array
/// argument that a text denotes has at least two.
pub proof fn arrays_have_two_or_more_elements(s: Seq<char>)
    requires
        args_of_text(s) is Some,
    ensures
        forall|i: int|
            0 <= i < args_of_text(s).unwrap().len() ==> (
            #[trigger] args_of_text(s).unwrap()[i] matches FuncArgView::Array(e) ==> e.len() >= 2),
{
    if s.len() > 0 {
        lemma_scan_pieces_arrays(split_spaces(s));
    }
}

/// Inside an open array, a piece that does not end with `]` and is a field
/// element adds that element after the array's others and leaves the
/// arguments completed so far as they are.
pub proof fn open_array_takes_each_element(
    args: Seq<FuncArgView>,
    elems: Seq<Seq<u8>>,
    t: Seq<char>,
)
    requires
        !(t.len() > 0 && t.last() == ']'),
        parsed_felt(t) is Some,
    ensures
        scan_piece(ArgScan { args, open: Some(elems) }, t) == Some(
            ArgScan { args, open: Some(elems.push(parsed_felt(t).unwrap())) },
        ),
{
}

/// Texts joined by single spaces, in order.
pub open spec fn join_spaces(ps: Seq<Seq<char>>) -> Seq<char>
    decreases ps.len(),
{
    if ps.len() == 0 {
        Seq::empty()
    } else if ps.len() == 1 {
        ps[0]
    } else {
        join_spaces(ps.drop_last()) + seq![' '] + ps.last()
    }
}

/// The field elements of element texts, in order.
pub open spec fn felt_values(es: Seq<Seq<char>>) -> Seq<Seq<u8>> {
    es.map_values(|e: Seq<char>| parsed_felt(e).unwrap())
}

/// The pieces of an array text: `[` before the first element and `]` after
/// the last.
spec fn bracketed(es: Seq<Seq<char>>) -> Seq<Seq<char>> {
    es.update(0, seq!['['] + es[0]).update(es.len() - 1, es.last().push(']'))
}

spec fn no_spaces(t: Seq<char>) -> bool {
    forall|j: int| 0 <= j < t.len() ==> t[j] != ' '
}

proof fn lemma_split_join(ps: Seq<Seq<char>>)
    requires
        ps.len() >= 1,
        forall|i: int| 0 <= i < ps.len() ==> no_spaces(#[trigger] ps[i]),
    ensures
        split_spaces(join_spaces(ps)) =~= ps,
    decreases ps.len(),
{
    if ps.len() == 1 {
        assert(no_spaces(ps[0]));
        lemma_split_without_spaces(ps[0]);
        assert(seq![ps[0]] =~= ps);
    } else {
        let init = ps.drop_last();
        assert forall|i: int| 0 <= i < init.len() implies no_spaces(#[trigger] init[i]) by {
            assert(init[i] == ps[i]);
        }
        lemma_split_join(init);
        lemma_split_spaces_join(join_spaces(init), ps.last());
        assert(no_spaces(ps[ps.len() - 1]));
        lemma_split_without_spaces(ps.last());
        assert(init + seq![ps.last()] =~= ps);
    }
}

proof fn lemma_open_bracket_join(q: Seq<Seq<char>>)
    requires
        q.len() >= 1,
    ensures
        seq!['['] + join_spaces(q) =~= join_spaces(q.update(0, seq!['['] + q[0])),
    decreases q.len(),
{
    let u = q.update(0, seq!['['] + q[0]);
    if q.len() > 1 {
        let d = q.drop_last();
        lemma_open_bracket_join(d);
        assert(u.drop_last() =~= d.update(0, seq!['['] + d[0]));
        assert(u.last() == q.last());
        assert(seq!['['] + (join_spaces(d) + seq![' '] + q.last()) =~= (seq!['['] + join_spaces(d))
            + seq![' '] + q.last());
    }
}

proof fn lemma_bracket_join(es: Seq<Seq<char>>)
    requires
        es.len() >= 2,
    ensures
        seq!['['] + join_spaces(es) + seq![']'] =~= join_spaces(bracketed(es)),
{
    let d = es.drop_last();
    let b = bracketed(es);
    lemma_open_bracket_join(d);
    assert(b.drop_last() =~= d.update(0, seq!['['] + d[0]));
    assert(b.last() == es.last().push(']'));
    assert(seq!['['] + (join_spaces(d) + seq![' '] + es.last()) + seq![']'] =~= (seq!['[']
        + join_spaces(d)) + seq![' '] + es.last().push(']'));
}

/// A field element's text is an optional `-` and decimal digits.
proof fn lemma_literal_chars(e: Seq<char>)
    requires
        parsed_felt(e) is Some,
    ensures
        e.len() > 0,
        no_spaces(e),
        e.last() != ']',
        e[0] != '[',
        e[0] != ' ',
{
    let m = magnitude_text(e);
    assert(is_decimal_literal(e));
    assert forall|j: int| 0 <= j < e.len() implies e[j] == '-' || is_dec_digit(e[j]) by {
        if e[0] == '-' {
            if j > 0 {
                assert(e[j] == m[j - 1]);
                assert(is_dec_digit(m[j - 1]));
            }
        } else {
            assert(is_dec_digit(m[j]));
        }
    }
    if e[0] == '-' {
        assert(e[e.len() - 1] == m[m.len() - 1]);
        assert(is_dec_digit(m[m.len() - 1]));
    } else {
        assert(is_dec_digit(m[m.len() - 1]));
    }
}

proof fn lemma_scan_open_array(es: Seq<Seq<char>>, k: int)
    requires
        es.len() >= 2,
        1 <= k <= es.len() - 1,
        forall|i: int| 0 <= i < es.len() ==> parsed_felt(#[trigger] es[i]) is Some,
    ensures
        scan_pieces(bracketed(es).take(k)) == Some(
            ArgScan { args: Seq::<FuncArgView>::empty(), open: Some(felt_values(es).take(k)) },
        ),
    decreases k,
{
    let b = bracketed(es);
    let vals = felt_values(es);
    let empty = ArgScan { args: Seq::<FuncArgView>::empty(), open: None };
    if k == 1 {
        let x = b[0];
        assert(x == seq!['['] + es[0]);
        assert(b.take(1).drop_last() =~= Seq::<Seq<char>>::empty());
        assert(b.take(1).last() == x);
        assert(scan_pieces(b.take(1).drop_last()) == Some(empty));
        assert(x.drop_first() =~= es[0]);
        assert(parsed_felt(es[0]) is Some);
        assert(vals[0] == parsed_felt(es[0]).unwrap());
        assert(vals.take(1) =~= seq![vals[0]]);
    } else {
        lemma_scan_open_array(es, k - 1);
        assert(b.take(k).drop_last() =~= b.take(k - 1));
        let t = b.take(k).last();
        assert(t == es[k - 1]);
        assert(parsed_felt(es[k - 1]) is Some);
        lemma_literal_chars(t);
        assert(vals[k - 1] == parsed_felt(es[k - 1]).unwrap());
        assert(vals.take(k - 1).push(vals[k - 1]) =~= vals.take(k));
    }
}

/// An array written as `[`, its element texts joined by spaces, and `]`
/// denotes one array argument holding the field element of every element
/// text, in order, where it has at least two elements and each is a field
/// element.
pub proof fn args_of_array_text(es: Seq<Seq<char>>)
    requires
        es.len() >= 2,
        forall|i: int| 0 <= i < es.len() ==> parsed_felt(#[trigger] es[i]) is Some,
    ensures
        args_of_text(seq!['['] + join_spaces(es) + seq![']']) == Some(
            seq![FuncArgView::Array(felt_values(es))],
        ),
{
    let n = es.len();
    let b = bracketed(es);
    let vals = felt_values(es);
    let text = seq!['['] + join_spaces(es) + seq![']'];
    lemma_bracket_join(es);
    assert forall|i: int| 0 <= i < b.len() implies no_spaces(#[trigger] b[i]) by {
        assert(parsed_felt(es[i]) is Some);
        lemma_literal_chars(es[i]);
        if i == 0 {
            assert(b[i] == seq!['['] + es[0]);
            assert forall|j: int| 0 <= j < b[i].len() implies b[i][j] != ' ' by {
                if j > 0 {
                    assert(b[i][j] == es[0][j - 1]);
                }
            }
        } else if i == n - 1 {
            assert(b[i] == es[i].push(']'));
            assert forall|j: int| 0 <= j < b[i].len() implies b[i][j] != ' ' by {
                if j < es[i].len() {
                    assert(b[i][j] == es[i][j]);
                }
            }
        } else {
            assert(b[i] == es[i]);
        }
    }
    lemma_split_join(b);
    assert(split_spaces(text) =~= b);
    lemma_scan_open_array(es, n - 1);
    assert(b.take(n as int) =~= b);
    assert(b.drop_last() =~= b.take(n - 1));
    let t = b.last();
    assert(t == es[n - 1].push(']'));
    assert(t.drop_last() =~= es[n - 1]);
    assert(parsed_felt(es[n - 1]) is Some);
    assert(vals[n - 1] == parsed_felt(es[n - 1]).unwrap());
    assert(vals.take(n - 1).push(vals[n - 1]) =~= vals);
    assert(Seq::<FuncArgView>::empty().push(FuncArgView::Array(vals)) =~= seq![
        FuncArgView::Array(vals),
    ]);
}

} // verus!
