//! Database migrations shipped with the application as `<id>_<name>.sql`
//! scripts, numbered from 1 without gaps.

use crate::query::text_value::TextValue;
use crate::text::{
    chars_find, chars_have_suffix, first_index_of, has_suffix, lemma_first_index_of, str_chars,
    string_from_range,
};
use vstd::prelude::*;

verus! {

/// A migration script embedded in the application: its file name, its
/// bytes, and the SHA-256 of its bytes as the embedding recorded it.
#[derive(Debug, Clone)]
pub struct MigrationFile {
    pub name: String,
    pub content: Vec<u8>,
    pub sha256: [u8; 32],
}

/// A migration to apply.
#[derive(Debug, Clone)]
pub struct Migration {
    pub id: u32,
    pub name: String,
    /// sha256 hash as hex
    pub hash: String,
    pub content: Vec<u8>,
}

/// A migration applied earlier, as recorded in the database.
#[derive(Debug, Clone)]
pub struct AppliedMigration {
    pub id: u32,
    pub name: String,
    pub ts: i64,
    /// sha256 hash as hex
    pub hash: String,
}

/// The builder of the migration list.
pub struct Migrations;

/// The lowercase hexadecimal digit of `v` (`0 <= v < 16`).
pub open spec fn hex_digit(v: int) -> char {
    if v < 10 {
        (48 + v) as char
    } else {
        (87 + v) as char
    }
}

/// The lowercase hexadecimal text of `bytes`: two digits per byte, the high
/// half first.
pub open spec fn hex_text(bytes: Seq<u8>) -> Seq<char>
    decreases bytes.len(),
{
    if bytes.len() == 0 {
        Seq::empty()
    } else {
        hex_text(bytes.drop_last()) + seq![
            hex_digit(bytes.last() as int / 16),
            hex_digit(bytes.last() as int % 16),
        ]
    }
}

/// The hex text of `n` bytes has `2 * n` characters, each a lowercase
/// hexadecimal digit: a migration's hash is 64 such characters.
pub proof fn law_hex_text_shape(bytes: Seq<u8>)
    ensures
        hex_text(bytes).len() == 2 * bytes.len(),
        forall|i: int| 0 <= i < hex_text(bytes).len() ==> {
            let c = #[trigger] hex_text(bytes)[i];
            ('0' <= c <= '9') || ('a' <= c <= 'f')
        },
    decreases bytes.len(),
{
    if bytes.len() > 0 {
        let f = bytes.drop_last();
        law_hex_text_shape(f);
        let hi = bytes.last() as int / 16;
        let lo = bytes.last() as int % 16;
        let t = hex_text(bytes);
        assert forall|i: int| 0 <= i < t.len() implies {
            let c = #[trigger] t[i];
            ('0' <= c <= '9') || ('a' <= c <= 'f')
        } by {
            if i < hex_text(f).len() {
                assert(t[i] == hex_text(f)[i]);
            } else if i == hex_text(f).len() {
                assert(t[i] == hex_digit(hi));
            } else {
                assert(t[i] == hex_digit(lo));
            }
        }
    }
}

/// `hex::encode`: the lowercase hexadecimal text of `data`, two digits per
/// byte with the high half first, as its documentation and source show.
#[verifier::external_body]
fn hex_encode(data: &[u8]) -> (r: String)
    ensures
        r@ == hex_text(data@),
{
    hex::encode(data)
}

/// The position of the first `_` of a file name (its length when it has
/// none).
pub open spec fn separator_at(name: Seq<char>) -> int {
    first_index_of(name, '_')
}

/// The id of a migration file name: the text before the first `_`, read as
/// a `u32`; `None` when there is no `_` or the text is no `u32`.
pub open spec fn migration_id(name: Seq<char>) -> Option<u32> {
    if separator_at(name) == name.len() {
        None
    } else {
        <u32 as TextValue>::spec_parse(name.take(separator_at(name)))
    }
}

/// The migration's name: what follows the first `_`, without the `.sql`
/// suffix.
pub open spec fn script_name(name: Seq<char>) -> Seq<char> {
    name.subrange(separator_at(name) + 1, name.len() - 4)
}

/// The file names.
pub open spec fn names_of(files: Seq<MigrationFile>) -> Seq<Seq<char>> {
    files.map_values(|f: MigrationFile| f.name@)
}

/// The ids of the file names (meaningful where every name has one).
pub open spec fn ids_of(names: Seq<Seq<char>>) -> Seq<u32> {
    names.map_values(|n: Seq<char>| migration_id(n)->0)
}

/// How many of `ids` equal `k`.
pub open spec fn count_id(ids: Seq<u32>, k: int) -> nat
    decreases ids.len(),
{
    if ids.len() == 0 {
        0
    } else {
        count_id(ids.drop_last(), k) + (if ids.last() == k {
            1nat
        } else {
            0nat
        })
    }
}

/// Whether the files can be applied as they are: every name is
/// `<id>_<name>.sql` with an id of at least 1, and the ids are exactly
/// `1..=n`, each once.
pub open spec fn migrations_valid(files: Seq<MigrationFile>) -> bool {
    let names = names_of(files);
    &&& forall|i: int|
        0 <= i < names.len() ==> ((#[trigger] migration_id(names[i])) matches Some(id) && id >= 1)
    &&& forall|i: int| 0 <= i < names.len() ==> has_suffix(#[trigger] names[i], ".sql"@)
    &&& forall|k: int| 1 <= k <= names.len() ==> #[trigger] count_id(ids_of(names), k) == 1
}

/// The migration built from a file.
pub open spec fn migration_of(m: Migration, f: MigrationFile) -> bool {
    &&& Some(m.id) == migration_id(f.name@)
    &&& m.name@ == script_name(f.name@)
    &&& m.hash@ == hex_text(f.sha256@)
    &&& m.content@ == f.content@
}

/// `first_index_of` never points into a `.sql` suffix.
proof fn lemma_separator_before_suffix(name: Seq<char>)
    requires
        separator_at(name) < name.len(),
        has_suffix(name, ".sql"@),
    ensures
        separator_at(name) < name.len() - 4,
{
    lemma_first_index_of(name, '_');
    reveal_strlit(".sql");
    let p = separator_at(name);
    let q: int = name.len() - 4;
    let tail = name.skip(q);
    assert(tail == ".sql"@);
    if p >= q {
        assert(tail[p - q] == name[p]);
        assert(tail[p - q] != '_') by {
            reveal_strlit(".sql");
            assert(".sql"@.len() == 4);
        }
    }
}

/// Reads the id of one file name.
fn file_id(name: &str) -> (r: Option<u32>)
    ensures
        r == migration_id(name@),
{
    let cs = str_chars(name);
    let p = chars_find(cs.as_slice(), '_');
    proof {
        lemma_first_index_of(name@, '_');
    }
    if p == cs.len() {
        return None;
    }
    let id_text = string_from_range(cs.as_slice(), 0, p);
    assert(id_text@ == name@.take(p as int));
    u32::from_text(id_text.as_str())
}

/// Whether `count_id` is positive exactly when the id occurs, and at most one
/// position holds an id whose count is one.
proof fn lemma_count_id(ids: Seq<u32>, k: int)
    ensures
        count_id(ids, k) > 0 <==> exists|i: int| 0 <= i < ids.len() && ids[i] == k,
        count_id(ids, k) == 1 ==> forall|i: int, j: int|
            0 <= i < ids.len() && 0 <= j < ids.len() && ids[i] == k && ids[j] == k ==> i == j,
    decreases ids.len(),
{
    if ids.len() > 0 {
        let f = ids.drop_last();
        lemma_count_id(f, k);
        if exists|i: int| 0 <= i < f.len() && f[i] == k {
            let i = choose|i: int| 0 <= i < f.len() && f[i] == k;
            assert(ids[i] == k);
        }
        if exists|i: int| 0 <= i < ids.len() && ids[i] == k {
            let i = choose|i: int| 0 <= i < ids.len() && ids[i] == k;
            if i < f.len() {
                assert(f[i] == k);
            }
        }
        if count_id(ids, k) == 1 {
            assert forall|i: int, j: int|
                0 <= i < ids.len() && 0 <= j < ids.len() && ids[i] == k && ids[j] == k implies i
                == j by {
                if i < f.len() && j < f.len() {
                    assert(f[i] == k && f[j] == k);
                } else if i < f.len() {
                    assert(f[i] == k);
                } else if j < f.len() {
                    assert(f[j] == k);
                }
            }
        }
    }
}

/// The ids of the files, each read from its name, for files whose names all
/// carry one.
fn read_ids(files: &[MigrationFile]) -> (r: Vec<u32>)
    requires
        forall|i: int| 0 <= i < files@.len() ==> (#[trigger] migration_id(files@[i].name@)) is Some,
    ensures
        r@ == ids_of(names_of(files@)),
{
    let mut ids: Vec<u32> = Vec::new();
    let mut i: usize = 0;
    while i < files.len()
        invariant
            i <= files@.len(),
            forall|j: int| 0 <= j < files@.len() ==> (#[trigger] migration_id(files@[j].name@)) is Some,
            ids@ == ids_of(names_of(files@)).take(i as int),
        decreases files@.len() - i,
    {
        let id = match file_id(files[i].name.as_str()) {
            Some(id) => id,
            None => 0,
        };
        ids.push(id);
        i = i + 1;
        assert(ids@ =~= ids_of(names_of(files@)).take(i as int));
    }
    assert(ids_of(names_of(files@)).take(i as int) =~= ids_of(names_of(files@)));
    ids
}

/// The migration of one file whose name is `<id>_<name>.sql`.
fn migration_from_file(f: &MigrationFile, id: u32) -> (m: Migration)
    requires
        migration_id(f.name@) == Some(id),
        has_suffix(f.name@, ".sql"@),
    ensures
        migration_of(m, *f),
        m.id == id,
{
    let cs = str_chars(f.name.as_str());
    let p = chars_find(cs.as_slice(), '_');
    proof {
        lemma_first_index_of(f.name@, '_');
        lemma_separator_before_suffix(f.name@);
    }
    let name = string_from_range(cs.as_slice(), p + 1, cs.len() - 4);
    let hash = hex_encode(&f.sha256);
    let content = f.content.clone();
    assert(content@ =~= f.content@);
    Migration { id, name, hash, content }
}

impl Migrations {
    /// The migrations in order of their ids, `1` to `n`, each built from the
    /// file with that id: the name after the id without `.sql`, the hex text
    /// of the script's SHA-256, and its bytes.
    pub fn build(files: &[MigrationFile]) -> (r: Vec<Migration>)
        requires
            migrations_valid(files@),
        ensures
            r@.len() == files@.len(),
            forall|k: int|
                0 <= k < r@.len() ==> (#[trigger] r@[k]).id == k + 1 && exists|i: int|
                    0 <= i < files@.len() && migration_of(r@[k], files@[i]),
    {
        let ghost names = names_of(files@);
        assert forall|i: int| 0 <= i < files@.len() implies (#[trigger] migration_id(files@[i].name@)) is Some by {
            assert(names[i] == files@[i].name@);
            assert(migration_id(names[i]) is Some);
        }
        let ids = read_ids(files);
        let n = files.len();
        let mut res: Vec<Migration> = Vec::new();
        let mut k: usize = 0;
        while k < n
            invariant
                k <= n,
                n == files@.len(),
                ids@ == ids_of(names),
                names == names_of(files@),
                migrations_valid(files@),
                res@.len() == k,
                forall|j: int|
                    0 <= j < res@.len() ==> (#[trigger] res@[j]).id == j + 1 && exists|i: int|
                        0 <= i < files@.len() && migration_of(res@[j], files@[i]),
            decreases n - k,
        {
            let target: usize = k + 1;
            assert(count_id(ids@, target as int) == 1);
            proof {
                lemma_count_id(ids@, target as int);
            }
            let mut i: usize = 0;
            while i < n
                invariant
                    i <= n,
                    n == ids@.len(),
                    forall|j: int| 0 <= j < i ==> ids@[j] != target,
                    exists|j: int| 0 <= j < ids@.len() && ids@[j] == target,
                ensures
                    i <= n,
                    i < n ==> ids@[i as int] == target,
                    forall|j: int| 0 <= j < i ==> ids@[j] != target,
                decreases n - i,
            {
                if ids[i] as usize == target {
                    break;
                }
                i = i + 1;
            }
            assert(i < n && ids@[i as int] == target) by {
                if i == n {
                    let j = choose|j: int| 0 <= j < ids@.len() && ids@[j] == target;
                    assert(ids@[j] != target);
                }
            }
            let ghost fi = files@[i as int];
            assert(names[i as int] == fi.name@);
            assert(migration_id(fi.name@) matches Some(id) && id == ids@[i as int]);
            assert(has_suffix(names[i as int], ".sql"@));
            let m = migration_from_file(&files[i], ids[i]);
            res.push(m);
            assert(res@[k as int] == m);
            assert(migration_of(res@[k as int], files@[i as int]));
            k = k + 1;
        }
        res
    }
}

/// Why a set of migration files cannot be applied: the first of the
/// reasons the files are checked for, in the order they are checked.
#[derive(Debug, Clone, Copy, PartialEq, Eq, Structural)]
pub enum MigrationProblem {
    /// The name of file `index` has no `_`.
    MissingSeparator { index: usize },
    /// The text before the first `_` of file `index` is no `u32`.
    InvalidId { index: usize },
    /// The smallest id is not 1.
    FirstNotOne,
    /// A file checked before the first gap or repeated id does not end in
    /// `.sql`.
    MissingSqlSuffix,
    /// In ascending order, an id does not follow the previous one.
    NotConsecutive,
}

/// The position of the first name without an id (the count of names when
/// all have one).
pub open spec fn first_unparsed(names: Seq<Seq<char>>) -> int
    decreases names.len(),
{
    if names.len() == 0 {
        0
    } else if migration_id(names[0]) is None {
        0
    } else {
        1 + first_unparsed(names.drop_first())
    }
}

/// Whether the smallest id is 1.
pub open spec fn min_is_one(ids: Seq<u32>) -> bool {
    ids.contains(1u32) && forall|i: int| 0 <= i < ids.len() ==> ids[i] >= 1
}

/// The first `k`, counting up from the given one, that is not held by
/// exactly one file; past the number of files when every id up to it is.
pub open spec fn gap_from(ids: Seq<u32>, k: int) -> int
    decreases ids.len() + 1 - k,
{
    if k > ids.len() || count_id(ids, k) != 1 {
        k
    } else {
        gap_from(ids, k + 1)
    }
}

/// The smallest id above `t`.
pub open spec fn min_above(ids: Seq<u32>, t: int) -> Option<u32>
    decreases ids.len(),
{
    if ids.len() == 0 {
        None
    } else {
        let x = ids.last();
        let m = min_above(ids.drop_last(), t);
        if x > t {
            match m {
                None => Some(x),
                Some(y) => if x < y {
                    Some(x)
                } else {
                    Some(y)
                },
            }
        } else {
            m
        }
    }
}

/// The position of the first file with id `u` (the count of files when
/// there is none).
pub open spec fn first_pos(ids: Seq<u32>, u: u32) -> int
    decreases ids.len(),
{
    if ids.len() == 0 {
        0
    } else if ids[0] == u {
        0
    } else {
        1 + first_pos(ids.drop_first(), u)
    }
}

/// Whether file `i` is looked at, in ascending order of ids with ties in
/// file order, up to and including the first file whose id does not follow
/// the previous one, `t` being the first id not held by exactly one file:
/// the files below `t`, then either the first two files with id `t` or the
/// first file with the next larger id.
pub open spec fn examined(ids: Seq<u32>, t: int, i: int) -> bool {
    ||| ids[i] < t
    ||| count_id(ids, t) >= 2 && ids[i] == t && count_id(ids.take(i), t) < 2
    ||| count_id(ids, t) == 0 && (min_above(ids, t) matches Some(u) && i == first_pos(ids, u))
}

/// The problem of a set of migration files, if any. Every name must carry
/// an id (checked in file order); then, if there are files, the smallest
/// id must be 1; then, in ascending order of ids, every file must end in
/// `.sql` and every id must follow the previous one.
pub open spec fn migration_problem(files: Seq<MigrationFile>) -> Option<MigrationProblem> {
    let names = names_of(files);
    let b = first_unparsed(names);
    if b < names.len() {
        if separator_at(names[b]) == names[b].len() {
            Some(MigrationProblem::MissingSeparator { index: b as usize })
        } else {
            Some(MigrationProblem::InvalidId { index: b as usize })
        }
    } else if names.len() == 0 {
        None
    } else {
        let ids = ids_of(names);
        if !min_is_one(ids) {
            Some(MigrationProblem::FirstNotOne)
        } else {
            let t = gap_from(ids, 1);
            if t > ids.len() {
                if forall|i: int| 0 <= i < names.len() ==> has_suffix(#[trigger] names[i], ".sql"@) {
                    None
                } else {
                    Some(MigrationProblem::MissingSqlSuffix)
                }
            } else if exists|i: int|
                0 <= i < names.len() && examined(ids, t, i) && !has_suffix(
                    #[trigger] names[i],
                    ".sql"@,
                ) {
                Some(MigrationProblem::MissingSqlSuffix)
            } else {
                Some(MigrationProblem::NotConsecutive)
            }
        }
    }
}

proof fn lemma_first_unparsed(names: Seq<Seq<char>>)
    ensures
        0 <= first_unparsed(names) <= names.len(),
        forall|j: int| 0 <= j < first_unparsed(names) ==> (#[trigger] migration_id(names[j])) is Some,
        first_unparsed(names) < names.len() ==> migration_id(names[first_unparsed(names)]) is None,
    decreases names.len(),
{
    if names.len() > 0 && migration_id(names[0]) is Some {
        let rest = names.drop_first();
        lemma_first_unparsed(rest);
        assert forall|j: int| 0 <= j < first_unparsed(names) implies (#[trigger] migration_id(
            names[j],
        )) is Some by {
            if j > 0 {
                assert(names[j] == rest[j - 1]);
            }
        }
        if first_unparsed(names) < names.len() {
            assert(names[first_unparsed(names)] == rest[first_unparsed(rest)]);
        }
    }
}

proof fn lemma_gap_from(ids: Seq<u32>, k: int)
    requires
        1 <= k <= ids.len() + 1,
    ensures
        k <= gap_from(ids, k) <= ids.len() + 1,
        forall|j: int| k <= j < gap_from(ids, k) ==> #[trigger] count_id(ids, j) == 1,
        gap_from(ids, k) <= ids.len() ==> count_id(ids, gap_from(ids, k)) != 1,
    decreases ids.len() + 1 - k,
{
    if !(k > ids.len() || count_id(ids, k) != 1) {
        lemma_gap_from(ids, k + 1);
    }
}

proof fn lemma_problem_iff_invalid(files: Seq<MigrationFile>)
    ensures
        migration_problem(files) is None <==> migrations_valid(files),
{
    let names = names_of(files);
    lemma_first_unparsed(names);
    let ids = ids_of(names);
    if migrations_valid(files) {
        assert(first_unparsed(names) == names.len()) by {
            if first_unparsed(names) < names.len() {
                assert(migration_id(names[first_unparsed(names)]) is Some);
            }
        }
        if names.len() > 0 {
            assert(count_id(ids, 1) == 1);
            lemma_count_id(ids, 1);
            let w = choose|i: int| 0 <= i < ids.len() && ids[i] == 1;
            assert(ids[w] == 1u32);
            assert(ids.contains(1u32));
            assert forall|i: int| 0 <= i < ids.len() implies ids[i] >= 1 by {
                assert(migration_id(names[i]) matches Some(id) && id >= 1);
            }
            lemma_gap_from(ids, 1);
            if gap_from(ids, 1) <= ids.len() {
                assert(count_id(ids, gap_from(ids, 1)) == 1);
            }
        }
    }
    if migration_problem(files) is None {
        if names.len() > 0 {
            lemma_gap_from(ids, 1);
            assert forall|i: int| 0 <= i < names.len() implies (#[trigger] migration_id(names[i])) matches Some(id) && id >= 1 by {
                assert(migration_id(names[i]) is Some);
                assert(ids[i] >= 1);
            }
        }
    }
}

/// How many of `ids` equal `k`.
fn count_ids(ids: &[u32], k: usize) -> (c: usize)
    ensures
        c == count_id(ids@, k as int),
{
    let mut c: usize = 0;
    let mut i: usize = 0;
    while i < ids.len()
        invariant
            i <= ids@.len(),
            c == count_id(ids@.take(i as int), k as int),
            c <= i,
        decreases ids@.len() - i,
    {
        assert(ids@.take(i + 1).drop_last() =~= ids@.take(i as int));
        if ids[i] as usize == k {
            c = c + 1;
        }
        i = i + 1;
    }
    assert(ids@.take(ids@.len() as int) =~= ids@);
    c
}

/// The smallest id above `t`.
fn min_id_above(ids: &[u32], t: usize) -> (r: Option<u32>)
    ensures
        r == min_above(ids@, t as int),
{
    let mut m: Option<u32> = None;
    let mut i: usize = 0;
    while i < ids.len()
        invariant
            i <= ids@.len(),
            m == min_above(ids@.take(i as int), t as int),
        decreases ids@.len() - i,
    {
        assert(ids@.take(i + 1).drop_last() =~= ids@.take(i as int));
        let x = ids[i];
        if x as usize > t {
            m = match m {
                None => Some(x),
                Some(y) => if x < y {
                    Some(x)
                } else {
                    Some(y)
                },
            };
        }
        i = i + 1;
    }
    assert(ids@.take(ids@.len() as int) =~= ids@);
    m
}

proof fn lemma_first_pos(ids: Seq<u32>, u: u32)
    ensures
        0 <= first_pos(ids, u) <= ids.len(),
        forall|j: int| 0 <= j < first_pos(ids, u) ==> ids[j] != u,
        first_pos(ids, u) < ids.len() ==> ids[first_pos(ids, u)] == u,
    decreases ids.len(),
{
    if ids.len() > 0 && ids[0] != u {
        lemma_first_pos(ids.drop_first(), u);
        assert forall|j: int| 0 <= j < first_pos(ids, u) implies ids[j] != u by {
            if j > 0 {
                assert(ids[j] == ids.drop_first()[j - 1]);
            }
        }
        if first_pos(ids, u) < ids.len() {
            assert(ids[first_pos(ids, u)] == ids.drop_first()[first_pos(ids.drop_first(), u)]);
        }
    }
}

/// The position of the first file with id `u`.
fn first_position(ids: &[u32], u: u32) -> (r: usize)
    ensures
        r == first_pos(ids@, u),
{
    proof {
        lemma_first_pos(ids@, u);
    }
    let mut i: usize = 0;
    while i < ids.len()
        invariant
            i <= ids@.len(),
            forall|j: int| 0 <= j < i ==> ids@[j] != u,
            0 <= first_pos(ids@, u) <= ids@.len(),
            forall|j: int| 0 <= j < first_pos(ids@, u) ==> ids@[j] != u,
            first_pos(ids@, u) < ids@.len() ==> ids@[first_pos(ids@, u)] == u,
        decreases ids@.len() - i,
    {
        if ids[i] == u {
            return i;
        }
        i = i + 1;
    }
    i
}

/// Whether the file name ends in `.sql`.
fn is_sql_script(name: &str) -> (r: bool)
    ensures
        r == has_suffix(name@, ".sql"@),
{
    let cs = str_chars(name);
    let suffix = str_chars(".sql");
    chars_have_suffix(cs.as_slice(), suffix.as_slice())
}

impl Migrations {
    /// The reason the files cannot be applied, if any; `None` exactly when
    /// `build` may be called on them.
    #[verifier::loop_isolation(false)]
    pub fn check_files(files: &[MigrationFile]) -> (r: Option<MigrationProblem>)
        ensures
            r == migration_problem(files@),
            r is None <==> migrations_valid(files@),
    {
        proof {
            lemma_problem_iff_invalid(files@);
        }
        let ghost names = names_of(files@);
        proof {
            lemma_first_unparsed(names);
        }
        let n = files.len();
        let mut i: usize = 0;
        while i < n
            invariant
                i <= n,
                n == files@.len(),
                names == names_of(files@),
                forall|j: int| 0 <= j < i ==> (#[trigger] migration_id(names[j])) is Some,
                0 <= first_unparsed(names) <= names.len(),
                forall|j: int| 0 <= j < first_unparsed(names) ==> (#[trigger] migration_id(names[j])) is Some,
                first_unparsed(names) < names.len() ==> migration_id(names[first_unparsed(names)]) is None,
            decreases n - i,
        {
            assert(names[i as int] == files@[i as int].name@);
            if file_id(files[i].name.as_str()).is_none() {
                assert(first_unparsed(names) == i) by {
                    if first_unparsed(names) < i {
                        assert(migration_id(names[first_unparsed(names)]) is Some);
                    }
                }
                let cs = str_chars(files[i].name.as_str());
                let p = chars_find(cs.as_slice(), '_');
                if p == cs.len() {
                    return Some(MigrationProblem::MissingSeparator { index: i });
                } else {
                    return Some(MigrationProblem::InvalidId { index: i });
                }
            }
            i = i + 1;
        }
        assert(first_unparsed(names) == n) by {
            if first_unparsed(names) < n {
                assert(migration_id(names[first_unparsed(names)]) is Some);
            }
        }
        if n == 0 {
            return None;
        }
        assert forall|j: int| 0 <= j < files@.len() implies (#[trigger] migration_id(files@[j].name@)) is Some by {
            assert(names[j] == files@[j].name@);
            assert(migration_id(names[j]) is Some);
        }
        let ids = read_ids(files);
        let mut has_one = false;
        let mut all_positive = true;
        let mut j: usize = 0;
        while j < n
            invariant
                j <= n,
                n == ids@.len(),
                has_one == ids@.take(j as int).contains(1u32),
                all_positive == (forall|q: int| 0 <= q < j ==> ids@[q] >= 1),
            decreases n - j,
        {
            proof {
                let pre = ids@.take(j as int);
                let nxt = ids@.take(j + 1);
                if pre.contains(1u32) {
                    let w = choose|w: int| 0 <= w < pre.len() && pre[w] == 1u32;
                    assert(nxt[w] == 1u32);
                }
                if nxt.contains(1u32) && ids@[j as int] != 1u32 {
                    let w = choose|w: int| 0 <= w < nxt.len() && nxt[w] == 1u32;
                    assert(pre[w] == 1u32);
                }
                assert(nxt[j as int] == ids@[j as int]);
            }
            if ids[j] == 1 {
                has_one = true;
            }
            if ids[j] < 1 {
                all_positive = false;
            }
            j = j + 1;
        }
        assert(ids@.take(n as int) =~= ids@);
        if !(has_one && all_positive) {
            return Some(MigrationProblem::FirstNotOne);
        }
        proof {
            lemma_gap_from(ids@, 1);
        }
        let mut gap: Option<usize> = None;
        let mut k: usize = 0;
        while k < n
            invariant
                k <= n,
                n == ids@.len(),
                gap is None,
                forall|q: int| 1 <= q <= k ==> #[trigger] count_id(ids@, q) == 1,
                1 <= gap_from(ids@, 1) <= ids@.len() + 1,
                forall|q: int| 1 <= q < gap_from(ids@, 1) ==> #[trigger] count_id(ids@, q) == 1,
                gap_from(ids@, 1) <= ids@.len() ==> count_id(ids@, gap_from(ids@, 1)) != 1,
            decreases n - k,
        {
            let target: usize = k + 1;
            if count_ids(ids.as_slice(), target) != 1 {
                assert(gap_from(ids@, 1) == target) by {
                    if gap_from(ids@, 1) < target {
                        assert(count_id(ids@, gap_from(ids@, 1)) == 1);
                    }
                    if gap_from(ids@, 1) > target {
                        assert(count_id(ids@, target as int) == 1);
                    }
                }
                gap = Some(target);
                break;
            }
            k = k + 1;
        }
        match gap {
            None => {
                assert(gap_from(ids@, 1) > ids@.len()) by {
                    if gap_from(ids@, 1) <= ids@.len() {
                        assert(count_id(ids@, gap_from(ids@, 1)) == 1);
                    }
                }
                let mut q: usize = 0;
                while q < n
                    invariant
                        q <= n,
                        n == files@.len(),
                        names == names_of(files@),
                        forall|w: int| 0 <= w < q ==> has_suffix(#[trigger] names[w], ".sql"@),
                    decreases n - q,
                {
                    assert(names[q as int] == files@[q as int].name@);
                    if !is_sql_script(files[q].name.as_str()) {
                        return Some(MigrationProblem::MissingSqlSuffix);
                    }
                    q = q + 1;
                }
                None
            },
            Some(t) => {
                let ct = count_ids(ids.as_slice(), t);
                let above = min_id_above(ids.as_slice(), t);
                let fp: usize = match above {
                    Some(u) => first_position(ids.as_slice(), u),
                    None => n,
                };
                let mut seen: usize = 0;
                let mut q: usize = 0;
                while q < n
                    invariant
                        q <= n,
                        n == files@.len(),
                        n == ids@.len(),
                        names == names_of(files@),
                        t == gap_from(ids@, 1),
                        ct == count_id(ids@, t as int),
                        above == min_above(ids@, t as int),
                        above matches Some(u) ==> fp == first_pos(ids@, u),
                        seen == count_id(ids@.take(q as int), t as int),
                        seen <= q,
                        forall|w: int|
                            0 <= w < q && examined(ids@, t as int, w) ==> has_suffix(
                                #[trigger] names[w],
                                ".sql"@,
                            ),
                    decreases n - q,
                {
                    assert(ids@.take(q + 1).drop_last() =~= ids@.take(q as int));
                    assert(names[q as int] == files@[q as int].name@);
                    let id = ids[q];
                    let looked_at = (id as usize) < t || (ct >= 2 && id as usize == t && seen < 2) || (
                    ct == 0 && above.is_some() && q == fp);
                    assert(looked_at == examined(ids@, t as int, q as int));
                    if looked_at && !is_sql_script(files[q].name.as_str()) {
                        return Some(MigrationProblem::MissingSqlSuffix);
                    }
                    if id as usize == t {
                        seen = seen + 1;
                    }
                    q = q + 1;
                }
                Some(MigrationProblem::NotConsecutive)
            },
        }
    }
}

} // verus!
