use vstd::prelude::*;
use crate::protocol::{Position, Symbol};

verus! {

/// How far past a declaration's start the reference query is placed: the
/// length of the `pub fn ` prefix and one more, which lands inside the
/// function's name.
pub const IDENT_OFFSET: u32 = 8;

/// Whether a symbol is a candidate: a function not named `main`.
pub open spec fn spec_is_candidate(s: Symbol) -> bool {
    s.is_function && s.name@ != "main"@
}

/// The index of the first candidate at or after `i`, or the length of `syms`
/// where there is none.
pub open spec fn next_candidate(syms: Seq<Symbol>, i: int) -> int
    decreases syms.len() - i,
{
    if i >= syms.len() {
        syms.len() as int
    } else if i < 0 {
        next_candidate(syms, 0)
    } else if spec_is_candidate(syms[i]) {
        i
    } else {
        next_candidate(syms, i + 1)
    }
}

/// Where the reference query for a declaration starting at `p` is placed.
pub open spec fn spec_query_position(p: Position) -> Position {
    Position {
        line: p.line,
        character: if p.character + IDENT_OFFSET <= u32::MAX {
            (p.character + IDENT_OFFSET) as u32
        } else {
            u32::MAX
        },
    }
}

/// The first candidate at or after `i` is a candidate, is not before `i`, and
/// every symbol between is not one.
pub proof fn lemma_next_candidate(syms: Seq<Symbol>, i: int)
    requires
        0 <= i <= syms.len(),
    ensures
        i <= next_candidate(syms, i) <= syms.len(),
        next_candidate(syms, i) < syms.len() ==> spec_is_candidate(
            syms[next_candidate(syms, i)],
        ),
        forall|k: int| i <= k < next_candidate(syms, i) ==> !spec_is_candidate(#[trigger] syms[k]),
    decreases syms.len() - i,
{
    if i < syms.len() && !spec_is_candidate(syms[i]) {
        lemma_next_candidate(syms, i + 1);
    }
}

/// Whether a symbol is a candidate for the reference query.
pub fn is_candidate(s: &Symbol) -> (r: bool)
    ensures
        r == spec_is_candidate(*s),
{
    let main = String::from_str("main");
    proof {
        reveal_strlit("main");
    }
    s.is_function && !(s.name == main)
}

/// The index of the first candidate at or after `i`.
pub fn find_candidate(syms: &Vec<Symbol>, i: usize) -> (r: usize)
    requires
        i <= syms@.len(),
    ensures
        r == next_candidate(syms@, i as int),
{
    let mut j: usize = i;
    while j < syms.len() && !is_candidate(&syms[j])
        invariant
            i <= j <= syms@.len(),
            next_candidate(syms@, i as int) == next_candidate(syms@, j as int),
        decreases syms@.len() - j,
    {
        j = j + 1;
    }
    j
}

/// Where the reference query for a declaration starting at `p` is placed.
pub fn query_position(p: Position) -> (r: Position)
    ensures
        r == spec_query_position(p),
{
    Position { line: p.line, character: p.character.saturating_add(IDENT_OFFSET) }
}

} // verus!
