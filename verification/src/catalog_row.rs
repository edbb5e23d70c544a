//! Rows of the Tycho-2 star catalogue, as lists of text columns.

use vstd::prelude::*;

verus! {

/// Whether a character is white space in the sense of Unicode.
pub open spec fn is_space(c: char) -> bool {
    let u = c as u32;
    ||| 0x09 <= u <= 0x0D
    ||| u == 0x20
    ||| u == 0x85
    ||| u == 0xA0
    ||| u == 0x1680
    ||| 0x2000 <= u <= 0x200A
    ||| u == 0x2028
    ||| u == 0x2029
    ||| u == 0x202F
    ||| u == 0x205F
    ||| u == 0x3000
}

/// A text without the white space it begins with.
pub open spec fn trimmed_start(s: Seq<char>) -> Seq<char>
    decreases s.len(),
{
    if s.len() > 0 && is_space(s[0]) {
        trimmed_start(s.drop_first())
    } else {
        s
    }
}

/// A text without the white space it ends with.
pub open spec fn trimmed_end(s: Seq<char>) -> Seq<char>
    decreases s.len(),
{
    if s.len() > 0 && is_space(s.last()) {
        trimmed_end(s.drop_last())
    } else {
        s
    }
}

/// A text without the white space at either end.
pub open spec fn trimmed(s: Seq<char>) -> Seq<char> {
    trimmed_end(trimmed_start(s))
}

/// A text with a hyphen in place of every blank.
pub open spec fn hyphenated(s: Seq<char>) -> Seq<char> {
    s.map_values(|c: char| if c == ' ' { '-' } else { c })
}

/// Tests a character for white space.
fn char_is_space(c: char) -> (r: bool)
    ensures
        r == is_space(c),
{
    let u: u32 = c as u32;
    (0x09 <= u && u <= 0x0D) || u == 0x20 || u == 0x85 || u == 0xA0 || u == 0x1680 || (0x2000 <= u
        && u <= 0x200A) || u == 0x2028 || u == 0x2029 || u == 0x202F || u == 0x205F || u == 0x3000
}

/// One row of the catalogue.
pub struct CatalogRow {
    row: Vec<String>,
}

impl CatalogRow {
    /// The columns of the row.
    pub closed spec fn columns(&self) -> Seq<String> {
        self.row@
    }

    /// A row of the given columns.
    pub fn new(row: Vec<String>) -> (r: CatalogRow)
        ensures
            r.columns() == row@,
    {
        CatalogRow { row }
    }

    /// How many columns the row has.
    pub fn len(&self) -> (r: usize)
        ensures
            r == self.columns().len(),
    {
        self.row.len()
    }

    /// The column at `index`, where the row has one there.
    pub fn column(&self, index: usize) -> (r: Option<&String>)
        ensures
            match r {
                Some(c) => index < self.columns().len() && *c == self.columns()[index as int],
                None => index >= self.columns().len(),
            },
    {
        if index < self.row.len() {
            Some(&self.row[index])
        } else {
            None
        }
    }

    /// The identifier of the star: the first column without the white space
    /// around it, its three numbers joined by hyphens where the catalogue has
    /// blanks.
    pub fn tyc_id(&self) -> (r: String)
        requires
            self.columns().len() > 0,
        ensures
            r@ == hyphenated(trimmed(self.columns()[0]@)),
    {
        let s = self.row[0].as_str();
        let n = s.unicode_len();
        let mut start: usize = 0;
        proof {
            assert(s@.skip(0) =~= s@);
        }
        while start < n && char_is_space(s.get_char(start))
            invariant
                start <= n,
                n == s@.len(),
                trimmed_start(s@.skip(start as int)) == trimmed_start(s@),
            decreases n - start,
        {
            proof {
                assert(s@.skip(start as int).drop_first() =~= s@.skip(start + 1));
            }
            start += 1;
        }
        proof {
            assert(trimmed_start(s@) == s@.skip(start as int));
            assert(s@.skip(start as int) =~= s@.subrange(start as int, n as int));
        }
        let mut end: usize = n;
        while end > start && char_is_space(s.get_char(end - 1))
            invariant
                start <= end <= n,
                n == s@.len(),
                trimmed_end(s@.subrange(start as int, end as int)) == trimmed(s@),
            decreases end,
        {
            proof {
                assert(s@.subrange(start as int, end as int).drop_last() =~= s@.subrange(
                    start as int,
                    end - 1,
                ));
            }
            end -= 1;
        }
        let ghost core = s@.subrange(start as int, end as int);
        proof {
            assert(trimmed(s@) == core);
        }
        let mut out = String::new();
        let mut i: usize = start;
        proof {
            reveal_strlit("-");
            assert(hyphenated(core.take(0)) =~= Seq::<char>::empty());
        }
        while i < end
            invariant
                start <= i <= end <= n,
                n == s@.len(),
                core == s@.subrange(start as int, end as int),
                out@ == hyphenated(core.take(i - start)),
                "-"@ == seq!['-'],
            decreases end - i,
        {
            let c = s.get_char(i);
            if c == ' ' {
                out.append("-");
            } else {
                out.append(s.substring_char(i, i + 1));
            }
            proof {
                assert(out@ =~= hyphenated(core.take(i + 1 - start)));
            }
            i += 1;
        }
        proof {
            assert(core.take(end - start) =~= core);
        }
        out
    }
}

} // verus!
