//! A list of values stored in one SQLite TEXT column, separated by one
//! character.

use crate::error::Error;
use crate::query::text_value::{TextDisplay, TextValue};
use crate::text::{join_pieces, pieces_view, split_chars, split_pieces, str_chars, string_from_chars, string_push};
use vstd::prelude::*;

verus! {

/// Whether `v` is the code of a Unicode scalar value (a Rust `char`).
pub open spec fn valid_scalar(v: u32) -> bool {
    v < 0xD800 || (0xE000 <= v && v <= 0x10FFFF)
}

/// `char::from_u32`: the character with code `v`, which exists exactly for
/// the Unicode scalar values.
#[verifier::external_body]
fn char_from_u32(v: u32) -> (r: Option<char>)
    ensures
        r is Some <==> valid_scalar(v),
        r matches Some(c) ==> c == v as char,
{
    char::from_u32(v)
}

/// A list of values stored in one TEXT column, separated by the character
/// whose code is `S` (for example `10` for a newline or `44` for a comma).
#[derive(Debug, Clone)]
pub struct VecText<const S: u32>(String);

impl<const S: u32> View for VecText<S> {
    type V = Seq<char>;

    closed spec fn view(&self) -> Seq<char> {
        self.0@
    }
}

/// The pieces of a column's text between separators. A code that is no
/// character never matches, so the text is one piece.
pub open spec fn column_pieces(text: Seq<char>, s: u32) -> Seq<Seq<char>> {
    if valid_scalar(s) {
        split_pieces(text, s as char)
    } else {
        seq![text]
    }
}

/// The texts of a list of values.
pub open spec fn display_texts<T: TextDisplay>(vs: Seq<T>) -> Seq<Seq<char>> {
    vs.map_values(|v: T| T::spec_text(v@))
}

/// The values read from the non-empty pieces, or `None` when one of them
/// does not denote a value.
pub open spec fn parse_nonempty<T: TextValue>(pieces: Seq<Seq<char>>) -> Option<Seq<<T as View>::V>>
    decreases pieces.len(),
{
    if pieces.len() == 0 {
        Some(Seq::empty())
    } else {
        match parse_nonempty::<T>(pieces.drop_last()) {
            None => None,
            Some(front) => if pieces.last().len() == 0 {
                Some(front)
            } else {
                match T::spec_parse(pieces.last()) {
                    Some(v) => Some(front.push(v)),
                    None => None,
                }
            },
        }
    }
}

/// The views of a vector of values.
pub open spec fn values_view<T: View>(vs: Seq<T>) -> Seq<<T as View>::V> {
    vs.map_values(|v: T| v@)
}

/// The message of a failed conversion into a list.
pub open spec fn convert_message() -> Seq<char> {
    "Cannot convert VecLf into Vec<_>"@
}

/// The message of a failed conversion of one value.
pub open spec fn parse_value_message() -> Seq<char> {
    "Cannot parse value"@
}

impl<const S: u32> VecText<S> {
    /// The pieces between separators, as character vectors.
    fn pieces(&self) -> (r: Vec<Vec<char>>)
        ensures
            pieces_view(r@) == column_pieces(self@, S),
    {
        let cs = str_chars(self.0.as_str());
        match char_from_u32(S) {
            Some(sep) => split_chars(cs.as_slice(), sep),
            None => {
                let mut v: Vec<Vec<char>> = Vec::new();
                v.push(cs);
                assert(pieces_view(v@) =~= seq![self@]);
                v
            },
        }
    }

    /// Wraps the text of a column: a TEXT value as it is, anything else as
    /// the empty list.
    pub fn from_column(text: Option<String>) -> (r: Self)
        ensures
            r@ == (match text {
                Some(t) => t@,
                None => Seq::<char>::empty(),
            }),
    {
        match text {
            Some(t) => VecText(t),
            None => VecText(String::new()),
        }
    }

    /// The column text.
    pub fn into_text(self) -> (r: String)
        ensures
            r@ == self@,
    {
        self.0
    }

    /// Whether the column text is empty.
    pub fn is_empty(&self) -> (r: bool)
        ensures
            r == (self@.len() == 0),
    {
        self.0.as_str().is_empty()
    }

    /// Writes the values' texts separated by the separator character.
    ///
    /// Fails only when `S` is not the code of a character and there is at
    /// least one value.
    pub fn new<T: TextDisplay>(value: &[T]) -> (r: Result<VecText<S>, Error>)
        ensures
            r is Ok <==> (value@.len() == 0 || valid_scalar(S)),
            r matches Ok(v) ==> v@ == join_pieces(display_texts(value@), S as char),
            r matches Err(e) ==> e is Error,
    {
        if value.len() == 0 {
            return Ok(VecText(String::new()));
        }
        let sep = match char_from_u32(S) {
            Some(c) => c,
            None => {
                return Err(Error::Error(String::from_str("separator is not a character")));
            },
        };
        let mut s = String::new();
        let mut i: usize = 0;
        while i < value.len()
            invariant
                1 <= value@.len(),
                i <= value@.len(),
                sep == S as char,
                i == 0 ==> s@ == Seq::<char>::empty(),
                i > 0 ==> s@ == join_pieces(display_texts(value@.take(i as int)), sep),
            decreases value@.len() - i,
        {
            let t = value[i].to_text();
            let ghost before = s@;
            if i > 0 {
                string_push(&mut s, sep);
            }
            s.append(t.as_str());
            proof {
                let ts = display_texts(value@.take(i + 1));
                assert(ts.drop_last() =~= display_texts(value@.take(i as int)));
                assert(ts.last() == T::spec_text(value@[i as int]@));
                if i == 0 {
                    assert(ts =~= seq![T::spec_text(value@[0]@)]);
                    assert(s@ =~= ts[0]);
                } else {
                    assert(s@ =~= before + seq![sep] + ts.last());
                }
            }
            i = i + 1;
        }
        assert(value@.take(value@.len() as int) =~= value@);
        Ok(VecText(s))
    }

    /// Reads every non-empty piece as a value; fails when one does not
    /// denote a value.
    pub fn parse<T: TextValue>(&self) -> (r: Result<Vec<T>, Error>)
        ensures
            r is Ok <==> parse_nonempty::<T>(column_pieces(self@, S)) is Some,
            r matches Ok(v) ==> Some(values_view(v@)) == parse_nonempty::<T>(column_pieces(self@, S)),
            r matches Err(e) ==> (e matches Error::Error(m) && m@ == convert_message()),
    {
        let pieces = self.pieces();
        let ghost ps = column_pieces(self@, S);
        let mut res: Vec<T> = Vec::new();
        let mut i: usize = 0;
        while i < pieces.len()
            invariant
                i <= pieces@.len(),
                pieces_view(pieces@) == ps,
                ps == column_pieces(self@, S),
                parse_nonempty::<T>(ps.take(i as int)) == Some(values_view(res@)),
            decreases pieces@.len() - i,
        {
            assert(ps.take(i + 1).drop_last() =~= ps.take(i as int));
            assert(ps.take(i + 1).last() == pieces@[i as int]@);
            let piece = &pieces[i];
            if piece.len() > 0 {
                let text = string_from_chars(piece.as_slice());
                match T::from_text(text.as_str()) {
                    Some(t) => {
                        let ghost before = res@;
                        res.push(t);
                        assert(values_view(res@) =~= values_view(before).push(t@));
                    },
                    None => {
                        proof {
                            assert(text@ == ps[i as int]);
                            lemma_parse_nonempty_prefix_fails::<T>(ps, i as int);
                        }
                        return Err(Error::Error(String::from_str("Cannot convert VecLf into Vec<_>")));
                    },
                }
            }
            i = i + 1;
        }
        assert(ps.take(pieces@.len() as int) =~= ps);
        Ok(res)
    }

    /// Reads every non-empty piece as a value, consuming the column.
    pub fn try_into_vec<T: TextValue>(self) -> (r: Result<Vec<T>, Error>)
        ensures
            r is Ok <==> parse_nonempty::<T>(column_pieces(self@, S)) is Some,
            r matches Ok(v) ==> Some(values_view(v@)) == parse_nonempty::<T>(column_pieces(self@, S)),
            r matches Err(e) ==> (e matches Error::Error(m) && m@ == convert_message()),
    {
        self.parse()
    }

    /// Like `try_into_vec`, but `None` when the column text is empty.
    pub fn try_into_vec_opt<T: TextValue>(self) -> (r: Result<Option<Vec<T>>, Error>)
        ensures
            self@.len() == 0 ==> r matches Ok(None),
            self@.len() > 0 ==> (r is Ok <==> parse_nonempty::<T>(column_pieces(self@, S)) is Some),
            self@.len() > 0 ==> (r matches Ok(o) ==> (o matches Some(v) && Some(values_view(v@))
                == parse_nonempty::<T>(column_pieces(self@, S)))),
            r matches Err(e) ==> (e matches Error::Error(m) && m@ == convert_message()),
    {
        if self.0.as_str().is_empty() {
            Ok(None)
        } else {
            let v = self.try_into_vec()?;
            Ok(Some(v))
        }
    }

    /// Every piece between separators, empty ones included.
    pub fn values(&self) -> (r: Vec<String>)
        ensures
            crate::text::strings_view(r@) == column_pieces(self@, S),
    {
        let pieces = self.pieces();
        let mut out: Vec<String> = Vec::new();
        let mut i: usize = 0;
        while i < pieces.len()
            invariant
                i <= pieces@.len(),
                crate::text::strings_view(out@) == pieces_view(pieces@).take(i as int),
            decreases pieces@.len() - i,
        {
            let s = string_from_chars(pieces[i].as_slice());
            let ghost before = out@;
            out.push(s);
            assert(crate::text::strings_view(out@) =~= crate::text::strings_view(before).push(s@));
            assert(pieces_view(pieces@).take(i + 1) =~= pieces_view(pieces@).take(i as int).push(pieces@[i as int]@));
            i = i + 1;
        }
        assert(pieces_view(pieces@).take(pieces@.len() as int) =~= pieces_view(pieces@));
        out
    }

    /// Every piece between separators read as a value, empty ones included.
    pub fn iter_as<T: TextValue>(&self) -> (r: Vec<Result<T, Error>>)
        ensures
            r@.len() == column_pieces(self@, S).len(),
            forall|i: int| 0 <= i < r@.len() ==> {
                &&& (r@[i] is Ok <==> T::spec_parse(column_pieces(self@, S)[i]) is Some)
                &&& (r@[i] matches Ok(v) ==> T::spec_parse(column_pieces(self@, S)[i]) == Some(v@))
                &&& (r@[i] matches Err(e) ==> (e matches Error::Error(m) && m@ == parse_value_message()))
            },
    {
        let pieces = self.pieces();
        let ghost ps = column_pieces(self@, S);
        let mut out: Vec<Result<T, Error>> = Vec::new();
        let mut i: usize = 0;
        while i < pieces.len()
            invariant
                i <= pieces@.len(),
                pieces_view(pieces@) == ps,
                out@.len() == i,
                forall|k: int| 0 <= k < i ==> {
                    &&& (out@[k] is Ok <==> T::spec_parse(ps[k]) is Some)
                    &&& (out@[k] matches Ok(v) ==> T::spec_parse(ps[k]) == Some(v@))
                    &&& (out@[k] matches Err(e) ==> (e matches Error::Error(m) && m@ == parse_value_message()))
                },
            decreases pieces@.len() - i,
        {
            let text = string_from_chars(pieces[i].as_slice());
            assert(text@ == ps[i as int]);
            let item = match T::from_text(text.as_str()) {
                Some(t) => Ok(t),
                None => Err(Error::Error(String::from_str("Cannot parse value"))),
            };
            out.push(item);
            i = i + 1;
        }
        out
    }
}

/// A failing piece makes the whole read fail.
proof fn lemma_parse_nonempty_prefix_fails<T: TextValue>(ps: Seq<Seq<char>>, i: int)
    requires
        0 <= i < ps.len(),
        ps[i].len() > 0,
        T::spec_parse(ps[i]) is None,
    ensures
        parse_nonempty::<T>(ps) is None,
    decreases ps.len(),
{
    if i == ps.len() - 1 {
        assert(ps.last() == ps[i]);
    } else {
        assert(ps.drop_last()[i] == ps[i]);
        lemma_parse_nonempty_prefix_fails::<T>(ps.drop_last(), i);
    }
}

} // verus!
