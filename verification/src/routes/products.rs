//! The query of the product listing.

use vstd::prelude::*;
use vstd::string::StrSliceExecFns;

verus! {

/// What `str::trim` returns for a text: the text without the whitespace at
/// its two ends.
pub uninterp spec fn trimmed(text: Seq<char>) -> Seq<char>;

/// Whether a character is one of the ten decimal digits `0` to `9`.
pub open spec fn is_digit(c: char) -> bool {
    '0' <= c <= '9'
}

/// Whether a text is one or more decimal digits and nothing else.
pub open spec fn all_digits(digits: Seq<char>) -> bool {
    digits.len() > 0 && forall|i: int| 0 <= i < digits.len() ==> is_digit(#[trigger] digits[i])
}

/// The number that a run of decimal digits writes.
pub open spec fn digits_value(digits: Seq<char>) -> int
    decreases digits.len(),
{
    if digits.len() == 0 {
        0
    } else {
        digits_value(digits.drop_last()) * 10 + (digits.last() as u32 - '0' as u32)
    }
}

/// The number a text writes in decimal: an optional `+` or `-`, then one or
/// more digits and nothing else, with a value that fits `i32`. Any other
/// text writes none.
pub open spec fn parsed_i32(text: Seq<char>) -> Option<i32> {
    let signed = text.len() > 0 && (text[0] == '-' || text[0] == '+');
    let digits = if signed {
        text.subrange(1, text.len() as int)
    } else {
        text
    };
    let value = if signed && text[0] == '-' {
        -digits_value(digits)
    } else {
        digits_value(digits)
    };
    if all_digits(digits) && i32::MIN <= value <= i32::MAX {
        Some(value as i32)
    } else {
        None
    }
}

/// `str::trim`. The contract only names the result: it is the standard
/// library's trimming of `text`.
#[verifier::external_body]
fn trim(text: &str) -> (inner: &str)
    ensures
        inner@ == trimmed(text@),
{
    text.trim()
}

/// `str::parse::<i32>`, with `None` for every error. The contract states
/// what the standard library documents of it: the text is an optional sign
/// followed by decimal digits only, and the value fits.
#[verifier::external_body]
fn parse_i32(text: &str) -> (number: Option<i32>)
    ensures
        number == parsed_i32(text@),
{
    text.parse::<i32>().ok()
}

/// The pieces of a text between its commas, in order. A text without a
/// comma is one piece; a text with `n` commas has `n + 1`.
pub open spec fn split_commas(text: Seq<char>) -> Seq<Seq<char>>
    decreases text.len(),
{
    if text.len() == 0 {
        seq![Seq::<char>::empty()]
    } else {
        let before = split_commas(text.drop_last());
        if text.last() == ',' {
            before.push(Seq::<char>::empty())
        } else {
            before.drop_last().push(before.last().push(text.last()))
        }
    }
}

/// The numbers that the pieces hold once trimmed, in order; a piece that
/// holds none is passed over.
pub open spec fn ids_of(pieces: Seq<Seq<char>>) -> Seq<i32>
    decreases pieces.len(),
{
    if pieces.len() == 0 {
        Seq::<i32>::empty()
    } else {
        let before = ids_of(pieces.drop_last());
        match parsed_i32(trimmed(pieces.last())) {
            Some(id) => before.push(id),
            None => before,
        }
    }
}

/// Adds a number that was read, if one was read.
pub fn push_parsed(ids: &mut Vec<i32>, parsed: Option<i32>)
    ensures
        final(ids)@ == match parsed {
            Some(id) => old(ids)@.push(id),
            None => old(ids)@,
        },
{
    match parsed {
        Some(id) => ids.push(id),
        None => {},
    }
}

/// Adds the number that `piece` holds once trimmed, if it holds one.
pub fn push_id(ids: &mut Vec<i32>, piece: &str)
    ensures
        final(ids)@ == match parsed_i32(trimmed(piece@)) {
            Some(id) => old(ids)@.push(id),
            None => old(ids)@,
        },
{
    push_parsed(ids, parse_i32(trim(piece)));
}

/// Reads a list of product ids separated by commas. Whitespace around an
/// id is ignored, and so is every piece that is not a number.
pub fn parse_ids(text: &str) -> (ids: Vec<i32>)
    ensures
        ids@ == ids_of(split_commas(text@)),
{
    let n = text.unicode_len();
    let mut ids: Vec<i32> = Vec::new();
    let mut start: usize = 0;
    let mut i: usize = 0;
    let ghost mut done: Seq<Seq<char>> = Seq::empty();
    assert(text@.subrange(0, 0) =~= Seq::<char>::empty());
    assert(seq![Seq::<char>::empty()] =~= done.push(text@.subrange(0, 0)));
    while i < n
        invariant
            n == text@.len(),
            start <= i <= n,
            split_commas(text@.subrange(0, i as int)) == done.push(
                text@.subrange(start as int, i as int),
            ),
            ids@ == ids_of(done),
        decreases n - i,
    {
        let ghost prefix = text@.subrange(0, i as int);
        let ghost longer = text@.subrange(0, i + 1);
        let ghost current = text@.subrange(start as int, i as int);
        assert(longer.drop_last() =~= prefix);
        assert(longer.last() == text@[i as int]);
        assert(done.push(current).drop_last() =~= done);
        if text.get_char(i) == ',' {
            let piece = text.substring_char(start, i);
            push_id(&mut ids, piece);
            proof {
                done = done.push(current);
                assert(done.drop_last().push(current) =~= done);
                assert(text@.subrange(i + 1, i + 1) =~= Seq::<char>::empty());
            }
            start = i + 1;
        } else {
            assert(current.push(text@[i as int]) =~= text@.subrange(start as int, i + 1));
        }
        i += 1;
    }
    assert(text@.subrange(0, n as int) =~= text@);
    let piece = text.substring_char(start, n);
    push_id(&mut ids, piece);
    assert(done.push(piece@).drop_last() =~= done);
    ids
}

/// Which products a listing shows.
#[derive(Debug, PartialEq, Eq)]
pub enum ProductFilter {
    /// Every product.
    All,
    /// The products with one of these ids.
    Ids(Vec<i32>),
}

impl ProductFilter {
    /// The ids a listing is limited to, if it is limited.
    pub open spec fn view(self) -> Option<Seq<i32>> {
        match self {
            ProductFilter::All => None,
            ProductFilter::Ids(ids) => Some(ids@),
        }
    }
}

/// The query string of the product listing: an optional list of product
/// ids, separated by commas.
#[derive(Debug)]
pub struct GetProductsQuery {
    ids: Option<String>,
}

impl GetProductsQuery {
    /// The text of the `ids` parameter, if it was given.
    pub closed spec fn view(self) -> Option<Seq<char>> {
        match self.ids {
            Some(text) => Some(text@),
            None => None,
        }
    }

    /// A query with the given `ids` parameter.
    pub fn new(ids: Option<String>) -> (query: GetProductsQuery)
        ensures
            query@ == match ids {
                Some(text) => Some(text@),
                None => None::<Seq<char>>,
            },
    {
        GetProductsQuery { ids }
    }

    /// The product ids the query asks for; none if the parameter is absent.
    pub open spec fn product_ids_spec(self) -> Seq<i32> {
        match self@ {
            Some(text) => ids_of(split_commas(text)),
            None => Seq::<i32>::empty(),
        }
    }

    /// The product ids the query asks for; none if the parameter is absent.
    pub fn product_ids(&self) -> (ids: Vec<i32>)
        ensures
            ids@ == self.product_ids_spec(),
    {
        match &self.ids {
            Some(text) => parse_ids(text.as_str()),
            None => Vec::new(),
        }
    }

    /// Which products the query selects: those it names, or all of them if
    /// it names none.
    pub fn filter(&self) -> (filter: ProductFilter)
        ensures
            filter@ == (if self.product_ids_spec().len() == 0 {
                None
            } else {
                Some(self.product_ids_spec())
            }),
    {
        let ids = self.product_ids();
        if ids.len() == 0 {
            ProductFilter::All
        } else {
            ProductFilter::Ids(ids)
        }
    }

    /// The text of the `ids` parameter, if it was given.
    pub fn ids(&self) -> (ids: Option<&str>)
        ensures
            self@ == match ids {
                Some(text) => Some(text@),
                None => None::<Seq<char>>,
            },
    {
        match &self.ids {
            Some(text) => Some(text.as_str()),
            None => None,
        }
    }
}

} // verus!
