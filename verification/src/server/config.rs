//! Where the server looks for its configuration.

use crate::text::{
    chars_have_prefix, has_prefix, pieces_view, push_chars, replace_all, replace_chars, split_chars,
    split_pieces, str_chars, string_from_chars, text_equal, lemma_split_nonempty,
};
use vstd::prelude::*;

verus! {

/// The config directory below the home directory `home`.
pub open spec fn config_dir_text(home: Seq<char>) -> Seq<char> {
    home + "/.hiqlite"@
}

/// The config directory `<home>/.hiqlite`.
pub fn default_config_dir(home: &str) -> (r: String)
    ensures
        r@ == config_dir_text(home@),
{
    let mut out = String::from_str(home);
    out.append("/.hiqlite");
    out
}

/// The server config file `<home>/.hiqlite/hiqlite.toml`.
pub fn default_config_file_path(home: &str) -> (r: String)
    ensures
        r@ == config_dir_text(home@) + "/hiqlite.toml"@,
{
    let mut out = default_config_dir(home);
    out.append("/hiqlite.toml");
    out
}

/// The proxy config file `<home>/.hiqlite/hiqlite-proxy.toml`.
pub fn default_proxy_config_file_path(home: &str) -> (r: String)
    ensures
        r@ == config_dir_text(home@) + "/hiqlite-proxy.toml"@,
{
    let mut out = default_config_dir(home);
    out.append("/hiqlite-proxy.toml");
    out
}

/// The config file to read: the default server config file when the
/// argument is the literal `$HOME/.hiqlite/hiqlite.toml`, else the argument.
pub fn resolve_config_path(config_file: &str, home: &str) -> (r: String)
    ensures
        r@ == (if config_file@ == "$HOME/.hiqlite/hiqlite.toml"@ {
            config_dir_text(home@) + "/hiqlite.toml"@
        } else {
            config_file@
        }),
{
    if text_equal(config_file, "$HOME/.hiqlite/hiqlite.toml") {
        default_config_file_path(home)
    } else {
        String::from_str(config_file)
    }
}

/// The proxy config file to read: the default proxy config file when the
/// argument is the literal `$HOME/.hiqlite/hiqlite-proxy.toml`, else the
/// argument.
pub fn resolve_proxy_config_path(config_file: &str, home: &str) -> (r: String)
    ensures
        r@ == (if config_file@ == "$HOME/.hiqlite/hiqlite-proxy.toml"@ {
            config_dir_text(home@) + "/hiqlite-proxy.toml"@
        } else {
            config_file@
        }),
{
    if text_equal(config_file, "$HOME/.hiqlite/hiqlite-proxy.toml") {
        default_proxy_config_file_path(home)
    } else {
        String::from_str(config_file)
    }
}

/// A line without the carriage return that ended it, if any.
pub open spec fn strip_cr(l: Seq<char>) -> Seq<char> {
    if l.len() > 0 && l.last() == '\r' {
        l.drop_last()
    } else {
        l
    }
}

/// The lines of a text as `str::lines` yields them: split at `\n`, a line
/// ended by `\r\n` without its `\r`, and no empty line after a final
/// line ending.
pub open spec fn text_lines(s: Seq<char>) -> Seq<Seq<char>> {
    let p = split_pieces(s, '\n');
    if p.last().len() == 0 {
        Seq::new((p.len() - 1) as nat, |i: int| strip_cr(p[i]))
    } else {
        Seq::new(p.len(), |i: int| if i < p.len() - 1 { strip_cr(p[i]) } else { p[i] })
    }
}

/// The position of the first line that starts with `[hiqlite]` (the number
/// of lines when there is none).
pub open spec fn section_start(lines: Seq<Seq<char>>) -> int
    decreases lines.len(),
{
    if lines.len() == 0 {
        0
    } else if has_prefix(lines[0], "[hiqlite]"@) {
        0
    } else {
        1 + section_start(lines.drop_first())
    }
}

/// The generated values a new config file is filled with.
#[derive(Debug, Clone)]
pub struct ConfigSecrets {
    pub secret_raft: String,
    pub secret_api: String,
    pub enc_key: String,
    pub enc_key_active: String,
    pub password_dashboard_b64: String,
}

/// A template line with its placeholders filled; with `insecure_cookie`, a
/// line setting `insecure_cookie = false` turns it on.
pub open spec fn render_line(line: Seq<char>, data_dir: Seq<char>, v: ConfigSecrets, insecure_cookie: bool) -> Seq<char> {
    if insecure_cookie && has_prefix(line, "insecure_cookie = false"@) {
        "insecure_cookie = true"@
    } else {
        replace_all(
            replace_all(
                replace_all(
                    replace_all(
                        replace_all(
                            replace_all(line, "{{ DATA_DIR }}"@, data_dir),
                            "{{ SECRET_RAFT }}"@,
                            v.secret_raft@,
                        ),
                        "{{ SECRET_API }}"@,
                        v.secret_api@,
                    ),
                    "{{ ENC_KEY }}"@,
                    v.enc_key@,
                ),
                "{{ ENC_KEY_ACTIVE }}"@,
                v.enc_key_active@,
            ),
            "{{ PASSWORD_DASHBOARD }}"@,
            v.password_dashboard_b64@,
        )
    }
}

/// Each line rendered and ended by `\n`.
pub open spec fn render_lines(lines: Seq<Seq<char>>, data_dir: Seq<char>, v: ConfigSecrets, insecure_cookie: bool) -> Seq<char>
    decreases lines.len(),
{
    if lines.len() == 0 {
        Seq::empty()
    } else {
        render_lines(lines.drop_last(), data_dir, v, insecure_cookie) + render_line(
            lines.last(),
            data_dir,
            v,
            insecure_cookie,
        ) + "\n"@
    }
}

/// The data directory of a new config: `<home>/.hiqlite/data`.
pub open spec fn default_data_dir(home: Seq<char>) -> Seq<char> {
    config_dir_text(home) + "/data"@
}

/// The lines of `text` as `str::lines` yields them.
pub fn lines_of(text: &str) -> (r: Vec<Vec<char>>)
    ensures
        pieces_view(r@) == text_lines(text@),
{
    let cs = str_chars(text);
    let pieces = split_chars(cs.as_slice(), '\n');
    let ghost p = split_pieces(text@, '\n');
    proof {
        lemma_split_nonempty(text@, '\n');
    }
    let n = pieces.len();
    let last_empty = pieces[n - 1].len() == 0;
    let kept: usize = if last_empty {
        n - 1
    } else {
        n
    };
    let mut out: Vec<Vec<char>> = Vec::new();
    let mut i: usize = 0;
    while i < kept
        invariant
            i <= kept,
            n == p.len(),
            n >= 1,
            pieces_view(pieces@) == p,
            kept == (if last_empty { n - 1 } else { n as int }),
            last_empty == (p.last().len() == 0),
            out@.len() == i,
            forall|j: int| 0 <= j < i ==> (#[trigger] out@[j])@ == (if j < p.len() - 1 {
                strip_cr(p[j])
            } else {
                p[j]
            }),
        decreases kept - i,
    {
        let piece = &pieces[i];
        assert(piece@ == p[i as int]);
        let m = piece.len();
        let mut line: Vec<char> = Vec::new();
        let strip = i < n - 1 && m > 0 && piece[m - 1] == '\r';
        let take: usize = if strip {
            m - 1
        } else {
            m
        };
        push_chars(&mut line, piece.as_slice().split_at(take).0);
        proof {
            if strip {
                assert(line@ =~= p[i as int].drop_last());
            } else {
                assert(line@ =~= p[i as int]);
            }
        }
        out.push(line);
        i = i + 1;
    }
    proof {
        let want = text_lines(text@);
        assert(pieces_view(out@) =~= want);
    }
    out
}

proof fn lemma_section_start(lines: Seq<Seq<char>>)
    ensures
        0 <= section_start(lines) <= lines.len(),
    decreases lines.len(),
{
    if lines.len() > 0 {
        lemma_section_start(lines.drop_first());
    }
}

/// The position of the first line that starts with `[hiqlite]`.
fn section_index(lines: &Vec<Vec<char>>) -> (r: usize)
    ensures
        r == section_start(pieces_view(lines@)),
{
    let ghost lv = pieces_view(lines@);
    let section = str_chars("[hiqlite]");
    let mut start: usize = 0;
    assert(lv.skip(0) =~= lv);
    while start < lines.len()
        invariant
            start <= lines@.len(),
            section@ == "[hiqlite]"@,
            lv == pieces_view(lines@),
            section_start(lv) == start + section_start(lv.skip(start as int)),
        decreases lines@.len() - start,
    {
        assert(lv.skip(start as int)[0] == lines@[start as int]@);
        if chars_have_prefix(lines[start].as_slice(), section.as_slice()) {
            return start;
        }
        assert(lv.skip(start as int).drop_first() =~= lv.skip(start + 1));
        start = start + 1;
    }
    assert(lv.skip(start as int).len() == 0);
    start
}

/// One template line with its placeholders filled.
fn render_one(line: &[char], data_dir: &[char], secrets: &ConfigSecrets, insecure_cookie: bool) -> (r: Vec<char>)
    ensures
        r@ == render_line(line@, data_dir@, *secrets, insecure_cookie),
{
    let flag = str_chars("insecure_cookie = false");
    if insecure_cookie && chars_have_prefix(line, flag.as_slice()) {
        return str_chars("insecure_cookie = true");
    }
    proof {
        reveal_strlit("{{ DATA_DIR }}");
        reveal_strlit("{{ SECRET_RAFT }}");
        reveal_strlit("{{ SECRET_API }}");
        reveal_strlit("{{ ENC_KEY }}");
        reveal_strlit("{{ ENC_KEY_ACTIVE }}");
        reveal_strlit("{{ PASSWORD_DASHBOARD }}");
    }
    let p1 = str_chars("{{ DATA_DIR }}");
    let p2 = str_chars("{{ SECRET_RAFT }}");
    let p3 = str_chars("{{ SECRET_API }}");
    let p4 = str_chars("{{ ENC_KEY }}");
    let p5 = str_chars("{{ ENC_KEY_ACTIVE }}");
    let p6 = str_chars("{{ PASSWORD_DASHBOARD }}");
    let v2 = str_chars(secrets.secret_raft.as_str());
    let v3 = str_chars(secrets.secret_api.as_str());
    let v4 = str_chars(secrets.enc_key.as_str());
    let v5 = str_chars(secrets.enc_key_active.as_str());
    let v6 = str_chars(secrets.password_dashboard_b64.as_str());
    let a = replace_chars(line, p1.as_slice(), data_dir);
    let b = replace_chars(a.as_slice(), p2.as_slice(), v2.as_slice());
    let c = replace_chars(b.as_slice(), p3.as_slice(), v3.as_slice());
    let d = replace_chars(c.as_slice(), p4.as_slice(), v4.as_slice());
    let e = replace_chars(d.as_slice(), p5.as_slice(), v5.as_slice());
    replace_chars(e.as_slice(), p6.as_slice(), v6.as_slice())
}

/// A new server config: the lines of `template` from the first one that
/// starts with `[hiqlite]`, each with its placeholders filled (the data
/// directory being `<home>/.hiqlite/data`) and ended by a newline.
pub fn default_config(template: &str, home: &str, secrets: &ConfigSecrets, insecure_cookie: bool) -> (r: String)
    ensures
        ({
            let lines = text_lines(template@);
            r@ == render_lines(lines.skip(section_start(lines)), default_data_dir(home@), *secrets, insecure_cookie)
        }),
{
    let lines = lines_of(template);
    let ghost lv = pieces_view(lines@);
    let mut dir = default_config_dir(home);
    dir.append("/data");
    let data_dir = str_chars(dir.as_str());
    let start = section_index(&lines);
    proof {
        lemma_section_start(lv);
    }
    let ghost rest = lv.skip(start as int);
    let mut out: Vec<char> = Vec::new();
    let mut i: usize = start;
    while i < lines.len()
        invariant
            start <= i <= lines@.len(),
            lv == pieces_view(lines@),
            rest == lv.skip(start as int),
            data_dir@ == default_data_dir(home@),
            out@ == render_lines(rest.take(i - start), data_dir@, *secrets, insecure_cookie),
        decreases lines@.len() - i,
    {
        let line = render_one(lines[i].as_slice(), data_dir.as_slice(), secrets, insecure_cookie);
        push_chars(&mut out, line.as_slice());
        out.push('\n');
        proof {
            let taken = rest.take(i + 1 - start);
            assert(taken.drop_last() =~= rest.take(i - start));
            assert(taken.last() == lv[i as int]);
            assert(lines@[i as int]@ == lv[i as int]);
            reveal_strlit("\n");
            assert(out@ =~= render_lines(taken, data_dir@, *secrets, insecure_cookie));
        }
        i = i + 1;
    }
    assert(rest.take(lines@.len() - start) =~= rest);
    string_from_chars(out.as_slice())
}

} // verus!
