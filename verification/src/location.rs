use vstd::prelude::*;
use vstd::string::StrSliceExecFns;
use vstd::string::StringExecFns;

use crate::text::{dec_seq, u32_dec};

verus! {

/// The mathematical value of a [`Location`]: the call site's file as a
/// character sequence together with its line and column numbers.
pub ghost struct LocView {
    pub file: Seq<char>,
    pub line: u32,
    pub col: u32,
}

/// An immutable descriptor of a single call site: file, line and column.
///
/// Chronological meaning is carried by a location's position inside a
/// backtrace, never by the ordering of locations themselves.
#[derive(Eq, Hash, PartialEq, Ord, Debug)]
pub struct Location {
    pub file: String,
    pub line: u32,
    pub col: u32,
}

impl Clone for Location {
    /// A clone describes the same call site.
    fn clone(&self) -> (r: Self)
        ensures
            r@ == self@,
    {
        Location { file: self.file.clone(), line: self.line, col: self.col }
    }
}

impl View for Location {
    type V = LocView;

    open spec fn view(&self) -> LocView {
        LocView { file: self.file@, line: self.line, col: self.col }
    }
}

/// The rendered form of a call site: `file:line:column`.
pub open spec fn loc_text(l: LocView) -> Seq<char> {
    l.file + ":"@ + dec_seq(l.line as int) + ":"@ + dec_seq(l.col as int)
}

impl Location {
    /// Builds the descriptor of the call site `file:line:col`.
    pub fn new(file: String, line: u32, col: u32) -> (r: Location)
        ensures
            r@ == (LocView { file: file@, line, col }),
    {
        Location { file, line, col }
    }

    /// Renders the call site as `file:line:column`.
    pub fn render(&self) -> (r: String)
        ensures
            r@ == loc_text(self@),
    {
        let mut s = self.file.clone();
        s.append(":");
        s.append(u32_dec(self.line).as_str());
        s.append(":");
        s.append(u32_dec(self.col).as_str());
        proof {
            assert(s@ =~= loc_text(self@));
        }
        s
    }
}

/// Lexicographic order on character sequences: by the first differing
/// character, a proper prefix ordering below its extensions.
pub open spec fn str_lt(a: Seq<char>, b: Seq<char>) -> bool
    decreases a.len(),
{
    if b.len() == 0 {
        false
    } else if a.len() == 0 {
        true
    } else if a[0] != b[0] {
        a[0] < b[0]
    } else {
        str_lt(a.drop_first(), b.drop_first())
    }
}

/// The total lexicographic order on call sites: by file, then line, then
/// column. It serves deduplication and deterministic display, not
/// chronology (chronology is a frame's position in the backtrace).
pub open spec fn loc_lt(a: LocView, b: LocView) -> bool {
    str_lt(a.file, b.file) || (a.file == b.file && (a.line < b.line || (a.line == b.line
        && a.col < b.col)))
}

/// Law: the lexicographic order on character sequences is irreflexive.
pub proof fn lemma_str_lt_irreflexive(a: Seq<char>)
    ensures
        !str_lt(a, a),
    decreases a.len(),
{
    if a.len() > 0 {
        lemma_str_lt_irreflexive(a.drop_first());
    }
}

/// Law: the lexicographic order on character sequences is total: two
/// sequences of which neither precedes the other are equal.
pub proof fn lemma_str_lt_total(a: Seq<char>, b: Seq<char>)
    ensures
        !str_lt(a, b) && !str_lt(b, a) ==> a == b,
    decreases a.len(),
{
    if a.len() > 0 && b.len() > 0 && a[0] == b[0] {
        lemma_str_lt_total(a.drop_first(), b.drop_first());
        if !str_lt(a, b) && !str_lt(b, a) {
            assert forall|k: int| 0 <= k < a.len() implies a[k] == b[k] by {
                if k > 0 {
                    assert(a[k] == a.drop_first()[k - 1]);
                    assert(b[k] == b.drop_first()[k - 1]);
                }
            }
            assert(a =~= b);
        }
    }
}

/// Law: the lexicographic order on character sequences is transitive.
pub proof fn lemma_str_lt_transitive(a: Seq<char>, b: Seq<char>, c: Seq<char>)
    ensures
        str_lt(a, b) && str_lt(b, c) ==> str_lt(a, c),
    decreases a.len(),
{
    if a.len() > 0 && b.len() > 0 && c.len() > 0 {
        lemma_str_lt_transitive(a.drop_first(), b.drop_first(), c.drop_first());
    }
}

/// Law: call sites are totally ordered by (file, line, column): of two
/// sites, either one precedes the other or they describe the same site, and
/// the order is irreflexive and transitive.
pub proof fn lemma_loc_order_total(a: LocView, b: LocView, c: LocView)
    ensures
        !loc_lt(a, b) && !loc_lt(b, a) ==> a == b,
        !loc_lt(a, a),
        loc_lt(a, b) && loc_lt(b, c) ==> loc_lt(a, c),
{
    lemma_str_lt_total(a.file, b.file);
    lemma_str_lt_irreflexive(a.file);
    lemma_str_lt_transitive(a.file, b.file, c.file);
    lemma_str_lt_irreflexive(b.file);
}

/// Three-way comparison of the suffixes of two strings that agree before
/// position `i`, in lexicographic character order.
fn str_compare_from(a: &str, b: &str, i: usize, alen: usize, blen: usize) -> (r: core::cmp::Ordering)
    requires
        alen == a@.len(),
        blen == b@.len(),
        i <= alen,
        i <= blen,
    ensures
        (r is Less) == str_lt(a@.skip(i as int), b@.skip(i as int)),
        (r is Greater) == str_lt(b@.skip(i as int), a@.skip(i as int)),
        (r is Equal) == (a@.skip(i as int) == b@.skip(i as int)),
    decreases alen - i,
{
    proof {
        if i < alen {
            assert(a@.skip(i as int)[0] == a@[i as int]);
            assert(a@.skip(i as int).drop_first() =~= a@.skip(i as int + 1));
        }
        if i < blen {
            assert(b@.skip(i as int)[0] == b@[i as int]);
            assert(b@.skip(i as int).drop_first() =~= b@.skip(i as int + 1));
        }
    }
    if i == blen {
        if i == alen {
            proof {
                assert(a@.skip(i as int) =~= b@.skip(i as int));
            }
            core::cmp::Ordering::Equal
        } else {
            core::cmp::Ordering::Greater
        }
    } else if i == alen {
        core::cmp::Ordering::Less
    } else {
        let ca = a.get_char(i);
        let cb = b.get_char(i);
        if ca < cb {
            core::cmp::Ordering::Less
        } else if cb < ca {
            core::cmp::Ordering::Greater
        } else {
            let r = str_compare_from(a, b, i + 1, alen, blen);
            proof {
                if a@.skip(i as int + 1) == b@.skip(i as int + 1) {
                    assert forall|k: int| 0 <= k < a@.skip(i as int).len() implies a@.skip(
                        i as int,
                    )[k] == b@.skip(i as int)[k] by {
                        if k > 0 {
                            assert(a@.skip(i as int)[k] == a@.skip(i as int + 1)[k - 1]);
                            assert(b@.skip(i as int)[k] == b@.skip(i as int + 1)[k - 1]);
                        }
                    }
                    assert(a@.skip(i as int) =~= b@.skip(i as int));
                }
                if a@.skip(i as int) == b@.skip(i as int) {
                    assert(a@.skip(i as int + 1) =~= a@.skip(i as int).drop_first());
                }
            }
            r
        }
    }
}

/// Three-way comparison of two strings in lexicographic character order.
fn str_compare(a: &str, b: &str) -> (r: core::cmp::Ordering)
    ensures
        (r is Less) == str_lt(a@, b@),
        (r is Greater) == str_lt(b@, a@),
        (r is Equal) == (a@ == b@),
{
    let alen = a.unicode_len();
    let blen = b.unicode_len();
    let r = str_compare_from(a, b, 0, alen, blen);
    proof {
        assert(a@.skip(0) =~= a@);
        assert(b@.skip(0) =~= b@);
    }
    r
}

impl PartialOrd for Location {
    /// Compares two call sites in the total lexicographic order: file, then
    /// line, then column. Every pair is ordered.
    fn partial_cmp(&self, other: &Self) -> (r: Option<core::cmp::Ordering>) {
        proof {
            lemma_str_lt_irreflexive(self.file@);
        }
        let file_order = str_compare(self.file.as_str(), other.file.as_str());
        match file_order {
            core::cmp::Ordering::Less => Some(core::cmp::Ordering::Less),
            core::cmp::Ordering::Greater => Some(core::cmp::Ordering::Greater),
            core::cmp::Ordering::Equal => {
                if self.line < other.line {
                    Some(core::cmp::Ordering::Less)
                } else if other.line < self.line {
                    Some(core::cmp::Ordering::Greater)
                } else if self.col < other.col {
                    Some(core::cmp::Ordering::Less)
                } else if other.col < self.col {
                    Some(core::cmp::Ordering::Greater)
                } else {
                    Some(core::cmp::Ordering::Equal)
                }
            },
        }
    }
}

impl vstd::std_specs::cmp::PartialOrdSpecImpl for Location {
    open spec fn obeys_partial_cmp_spec() -> bool {
        true
    }

    open spec fn partial_cmp_spec(&self, other: &Self) -> Option<core::cmp::Ordering> {
        if loc_lt(self@, other@) {
            Some(core::cmp::Ordering::Less)
        } else if loc_lt(other@, self@) {
            Some(core::cmp::Ordering::Greater)
        } else {
            Some(core::cmp::Ordering::Equal)
        }
    }
}

} // verus!
