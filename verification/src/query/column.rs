//! The value type of a result column, decided from its declared SQL type
//! the way SQLite decides a column's affinity.

use crate::text::{chars_have_infix, chars_have_prefix, has_infix, has_prefix, str_chars, text_equal};
use vstd::prelude::*;

verus! {

/// The kind of value a result column holds.
#[derive(Debug, Clone, Copy, PartialEq, Eq, Structural)]
pub enum ColumnType {
    /// A computed expression without a declared type: any kind of value.
    Expr,
    Integer,
    Real,
    Text,
    Blob,
}

/// A result column: its name and the kind of value it holds.
#[derive(Debug, Clone)]
pub struct ColumnInfo {
    pub name: String,
    pub typ: ColumnType,
}

/// What `str::to_uppercase` returns for a text: its Unicode uppercase
/// mapping, a function of the text alone.
pub uninterp spec fn unicode_uppercase(s: Seq<char>) -> Seq<char>;

/// `str::to_uppercase`.
#[verifier::external_body]
fn to_uppercase(s: &str) -> (r: String)
    ensures
        r@ == unicode_uppercase(s@),
{
    s.to_uppercase()
}

/// The kind of a column with the non-absent declared type `t`, given the
/// uppercase form `upper` of `t`; `None` for a declared type that matches no
/// affinity rule.
///
/// The exact names SQLite itself writes come first; then the affinity rules
/// of SQLite, applied to the uppercase text: `INT` anywhere gives an integer,
/// then `CHAR` or `CLOB` text, then `FLOA` or `DOUB` a real. An empty type is
/// a blob.
pub open spec fn decl_class(t: Seq<char>, upper: Seq<char>) -> Option<ColumnType> {
    if has_prefix(t, "INT"@) {
        Some(ColumnType::Integer)
    } else if t == "TEXT"@ {
        Some(ColumnType::Text)
    } else if t == "BLOB"@ {
        Some(ColumnType::Blob)
    } else if t == "REAL"@ {
        Some(ColumnType::Real)
    } else if t.len() == 0 {
        Some(ColumnType::Blob)
    } else if has_infix(upper, "INT"@) {
        Some(ColumnType::Integer)
    } else if has_infix(upper, "CHAR"@) || has_infix(upper, "CLOB"@) {
        Some(ColumnType::Text)
    } else if has_infix(upper, "FLOA"@) || has_infix(upper, "DOUB"@) {
        Some(ColumnType::Real)
    } else {
        None
    }
}

/// The kind of a column with declared type `typ` (`None` for an expression).
pub open spec fn column_type_of(typ: Option<Seq<char>>) -> Option<ColumnType> {
    match typ {
        None => Some(ColumnType::Expr),
        Some(t) => decl_class(t, unicode_uppercase(t)),
    }
}

/// The view of an optional declared type.
pub open spec fn decl_view(typ: Option<&str>) -> Option<Seq<char>> {
    match typ {
        None => None,
        Some(t) => Some(t@),
    }
}

impl ColumnType {
    /// The kind of a column with declared type `typ`, or `None` when the
    /// declared type matches no affinity rule.
    pub fn decl_type_class(typ: Option<&str>) -> (r: Option<ColumnType>)
        ensures
            r == column_type_of(decl_view(typ)),
    {
        match typ {
            None => Some(ColumnType::Expr),
            Some(t) => {
                let cs = str_chars(t);
                let int_name = str_chars("INT");
                if chars_have_prefix(cs.as_slice(), int_name.as_slice()) {
                    return Some(ColumnType::Integer);
                }
                if text_equal(t, "TEXT") {
                    return Some(ColumnType::Text);
                }
                if text_equal(t, "BLOB") {
                    return Some(ColumnType::Blob);
                }
                if text_equal(t, "REAL") {
                    return Some(ColumnType::Real);
                }
                if cs.len() == 0 {
                    return Some(ColumnType::Blob);
                }
                let upper = to_uppercase(t);
                let us = str_chars(upper.as_str());
                let char_name = str_chars("CHAR");
                let clob_name = str_chars("CLOB");
                let floa_name = str_chars("FLOA");
                let doub_name = str_chars("DOUB");
                if chars_have_infix(us.as_slice(), int_name.as_slice()) {
                    Some(ColumnType::Integer)
                } else if chars_have_infix(us.as_slice(), char_name.as_slice())
                    || chars_have_infix(us.as_slice(), clob_name.as_slice()) {
                    Some(ColumnType::Text)
                } else if chars_have_infix(us.as_slice(), floa_name.as_slice())
                    || chars_have_infix(us.as_slice(), doub_name.as_slice()) {
                    Some(ColumnType::Real)
                } else {
                    None
                }
            },
        }
    }

    /// The kind of a column with declared type `typ`, for a declared type
    /// that matches an affinity rule.
    pub fn from_decl_type(typ: Option<&str>) -> (r: ColumnType)
        requires
            column_type_of(decl_view(typ)) is Some,
        ensures
            column_type_of(decl_view(typ)) == Some(r),
    {
        match ColumnType::decl_type_class(typ) {
            Some(c) => c,
            None => ColumnType::Expr,
        }
    }
}

/// The result columns of a statement from each column's name and declared
/// type, or `None` when a declared type matches no affinity rule.
pub fn mapping_cols_from_stmt(columns: Vec<(String, Option<String>)>) -> (r: Option<Vec<ColumnInfo>>)
    ensures
        r is Some <==> (forall|i: int| 0 <= i < columns@.len() ==> #[trigger] column_type_of(
            owned_decl_view(columns@[i].1),
        ) is Some),
        r matches Some(cols) ==> cols@.len() == columns@.len() && (forall|i: int|
            0 <= i < columns@.len() ==> (#[trigger] cols@[i]).name@ == columns@[i].0@ && Some(
                cols@[i].typ,
            ) == column_type_of(owned_decl_view(columns@[i].1))),
{
    let mut out: Vec<ColumnInfo> = Vec::new();
    let n = columns.len();
    let ghost all = columns@;
    let mut i: usize = 0;
    while i < n
        invariant
            n == all.len(),
            i <= n,
            columns@ == all,
            out@.len() == i,
            forall|j: int| 0 <= j < i ==> #[trigger] column_type_of(owned_decl_view(all[j].1)) is Some,
            forall|j: int|
                0 <= j < i ==> (#[trigger] out@[j]).name@ == all[j].0@ && Some(out@[j].typ)
                    == column_type_of(owned_decl_view(all[j].1)),
        decreases n - i,
    {
        let decl: Option<&str> = match &columns[i].1 {
            Some(t) => Some(t.as_str()),
            None => None,
        };
        assert(decl_view(decl) == owned_decl_view(all[i as int].1));
        match ColumnType::decl_type_class(decl) {
            Some(typ) => {
                let name = columns[i].0.clone();
                out.push(ColumnInfo { name, typ });
            },
            None => {
                assert(column_type_of(owned_decl_view(columns@[i as int].1)) is None);
                return None;
            },
        }
        i = i + 1;
    }
    Some(out)
}

/// The view of an optional owned declared type.
pub open spec fn owned_decl_view(typ: Option<String>) -> Option<Seq<char>> {
    match typ {
        None => None,
        Some(t) => Some(t@),
    }
}

} // verus!
