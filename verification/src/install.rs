//! The managed `PATH` block that installation writes into shell profiles,
//! and the choice of profiles to manage.
use vstd::prelude::*;
use crate::text::{
    chars_eq_str, chars_of, contains, contains_exec, find, find_exec, lemma_find_from_first,
    lemma_find_from_skips, lemma_find_matches, lemma_trim_end_char_shape, lemma_trim_start_all_ws,
    matches_at, push_chars, push_char, push_str, slice_of, string_of, trim, trim_chars,
    trim_end_char, trim_end_char_exec,
};

verus! {

broadcast use vstd::string::group_string_axioms;

/// First line of the managed block.
pub const PATH_BLOCK_START: &'static str = "# >>> sysray path >>>";

/// Last line of the managed block.
pub const PATH_BLOCK_END: &'static str = "# <<< sysray path <<<";

pub open spec fn block_start() -> Seq<char> {
    PATH_BLOCK_START@
}

pub open spec fn block_end() -> Seq<char> {
    PATH_BLOCK_END@
}

/// `content` with its managed block replaced by `block`, or with `block`
/// appended on a line of its own when it has none. A block is present when
/// the start marker occurs no later than the end marker; the newlines that
/// ended the text before it are dropped, as is the one newline after it.
pub open spec fn upsert_spec(content: Seq<char>, block: Seq<char>) -> Seq<char> {
    match (find(content, block_start()), find(content, block_end())) {
        (Some(s), Some(e)) if s <= e => {
            let after = content.skip(e + block_end().len());
            let suffix = if after.len() > 0 && after[0] == '\n' {
                after.drop_first()
            } else {
                after
            };
            let prefix = trim_end_char(content.take(s), '\n');
            if prefix.len() == 0 {
                block + suffix
            } else if suffix.len() == 0 {
                prefix + seq!['\n'] + block
            } else {
                prefix + seq!['\n'] + block + seq!['\n'] + suffix
            }
        },
        _ => if trim(content).len() == 0 {
            block
        } else {
            trim_end_char(content, '\n') + seq!['\n'] + block
        },
    }
}

/// A managed block: the start marker, a body, the end marker and a newline,
/// where the end marker occurs nowhere before its own place.
pub open spec fn is_managed_block(block: Seq<char>) -> bool {
    &&& block.len() >= block_start().len() + block_end().len() + 1
    &&& block.take(block_start().len() as int) == block_start()
    &&& block.skip(block.len() - block_end().len() - 1) == block_end() + seq!['\n']
    &&& find(block, block_end()) == Some(block.len() - block_end().len() - 1)
}

proof fn lemma_markers()
    ensures
        block_start().len() == 21,
        block_end().len() == 21,
        block_start()[0] == '#',
        block_end()[0] == '#',
        block_start()[2] != block_end()[2],
        forall|i: int| 0 <= i < 21 ==> #[trigger] block_start()[i] != '\n',
        forall|i: int| 1 <= i < 21 ==> #[trigger] block_start()[i] != '#',
        forall|i: int|
            0 <= i < 21 ==> #[trigger] block_end()[i] != '\n' && block_end()[i] != ':'
                && block_end()[i] != '"',
{
    reveal_strlit("# >>> sysray path >>>");
    reveal_strlit("# <<< sysray path <<<");
}

/// Neither marker occurs anywhere in `p`.
pub open spec fn marker_free(p: Seq<char>) -> bool {
    &&& forall|j: int| !#[trigger] matches_at(p, block_start(), j)
    &&& forall|j: int| !#[trigger] matches_at(p, block_end(), j)
}

proof fn lemma_marker_free(p: Seq<char>)
    requires
        find(p, block_start()) is None,
        find(p, block_end()) is None,
    ensures
        marker_free(p),
{
    assert forall|j: int| !#[trigger] matches_at(p, block_start(), j) by {
        if 0 <= j {
            lemma_find_from_skips(p, block_start(), 0, j);
        }
    }
    assert forall|j: int| !#[trigger] matches_at(p, block_end(), j) by {
        if 0 <= j {
            lemma_find_from_skips(p, block_end(), 0, j);
        }
    }
}

/// Behind text that holds no marker and ends a line, a managed block's
/// markers are found where the block puts them.
proof fn lemma_find_after_plain(p: Seq<char>, block: Seq<char>)
    requires
        is_managed_block(block),
        p.len() == 0 || p.last() == '\n',
        marker_free(p),
    ensures
        find(p + block, block_start()) == Some(p.len() as int),
        find(p + block, block_end()) == Some(p.len() + block.len() - 22),
{
    lemma_markers();
    let c = p + block;
    let n = p.len() as int;
    assert forall|j: int| 0 <= j < n implies !matches_at(c, block_start(), j) && !matches_at(
        c,
        block_end(),
        j,
    ) by {
        if j + 21 <= n {
            assert(c.subrange(j, j + 21) =~= p.subrange(j, j + 21));
            assert(!matches_at(p, block_start(), j));
            assert(!matches_at(p, block_end(), j));
        } else {
            assert(c[n - 1] == '\n');
            if matches_at(c, block_start(), j) {
                assert(c.subrange(j, j + 21)[n - 1 - j] == c[n - 1]);
            }
            if matches_at(c, block_end(), j) {
                assert(c.subrange(j, j + 21)[n - 1 - j] == c[n - 1]);
            }
        }
    }
    assert(c.subrange(n, n + 21) =~= block.take(21));
    lemma_find_from_first(c, block_start(), 0, n);
    let k = block.len() - 22;
    lemma_find_matches(block, block_end(), 0);
    assert forall|j: int| n <= j < n + k implies !matches_at(c, block_end(), j) by {
        lemma_find_from_skips(block, block_end(), 0, j - n);
        if matches_at(c, block_end(), j) {
            assert(c.subrange(j, j + 21) =~= block.subrange(j - n, j - n + 21));
        }
    }
    assert(c.subrange(n + k, n + k + 21) =~= block.subrange(k, k + 21));
    lemma_find_from_first(c, block_end(), 0, n + k);
}

/// Writing a managed block into a profile that holds no marker, and then
/// writing the same block again, gives the text of the first write: running
/// the installation twice leaves the profile as once.
pub proof fn law_upsert_settles(content: Seq<char>, block: Seq<char>)
    requires
        is_managed_block(block),
        find(content, block_start()) is None,
        find(content, block_end()) is None,
    ensures
        upsert_spec(upsert_spec(content, block), block) == upsert_spec(content, block),
{
    lemma_markers();
    lemma_marker_free(content);
    let once = upsert_spec(content, block);
    let t = trim_end_char(content, '\n');
    lemma_trim_end_char_shape(content, '\n');
    let p = if trim(content).len() == 0 {
        Seq::<char>::empty()
    } else {
        t + seq!['\n']
    };
    assert(once =~= p + block);
    if trim(content).len() != 0 {
        if t.len() == 0 {
            assert forall|j: int| 0 <= j < content.len() implies crate::text::is_ws(
                #[trigger] content[j],
            ) by {
                assert(content[j] == '\n');
            }
            lemma_trim_start_all_ws(content);
        }
        assert forall|j: int| !#[trigger] matches_at(p, block_start(), j) by {
            if matches_at(p, block_start(), j) {
                if j + 21 <= t.len() {
                    assert(p.subrange(j, j + 21) =~= content.subrange(j, j + 21));
                    assert(matches_at(content, block_start(), j));
                } else {
                    assert(p.subrange(j, j + 21)[t.len() - j] == p[t.len() as int]);
                }
            }
        }
        assert forall|j: int| !#[trigger] matches_at(p, block_end(), j) by {
            if matches_at(p, block_end(), j) {
                if j + 21 <= t.len() {
                    assert(p.subrange(j, j + 21) =~= content.subrange(j, j + 21));
                    assert(matches_at(content, block_end(), j));
                } else {
                    assert(p.subrange(j, j + 21)[t.len() - j] == p[t.len() as int]);
                }
            }
        }
    }
    lemma_find_after_plain(p, block);
    let e = p.len() + block.len() - 22;
    assert(block.skip(block.len() - 22)[21] == '\n');
    assert(once.skip(e + 21) =~= seq!['\n']);
    assert(once.take(p.len() as int) =~= p);
    if p.len() > 0 {
        assert(p.drop_last() =~= t);
        lemma_trim_end_char_shape(t, '\n');
        assert(trim_end_char(p, '\n') == t);
    }
}

/// A block made of the start marker, a body line and the end marker is a
/// managed block, unless the body holds the end marker.
pub proof fn lemma_body_block_managed(body: Seq<char>)
    requires
        !contains(body, block_end()),
    ensures
        is_managed_block(block_start() + seq!['\n'] + body + seq!['\n'] + block_end() + seq!['\n']),
{
    lemma_markers();
    let b = block_start() + seq!['\n'] + body + seq!['\n'] + block_end() + seq!['\n'];
    let d = body.len() as int;
    let k = 23 + d;
    assert(b.take(21) =~= block_start());
    assert(b.skip(b.len() - 22) =~= block_end() + seq!['\n']);
    assert(b.subrange(k, k + 21) =~= block_end());
    assert forall|j: int| 0 <= j < k implies !matches_at(b, block_end(), j) by {
        if matches_at(b, block_end(), j) {
            assert(b.subrange(j, j + 21)[0] == b[j]);
            if j == 0 {
                assert(b.subrange(j, j + 21)[2] == b[2]);
            } else if 22 <= j < 22 + d {
                if j + 21 <= 22 + d {
                    assert(b.subrange(j, j + 21) =~= body.subrange(j - 22, j - 22 + 21));
                    lemma_find_from_skips(body, block_end(), 0, j - 22);
                } else {
                    assert(b.subrange(j, j + 21)[22 + d - j] == b[22 + d]);
                }
            }
        }
    }
    lemma_find_from_first(b, block_end(), 0, k);
}

/// Installing into a profile that holds no marker appends the block on a
/// line of its own (or writes the block alone into a blank profile), and
/// installing the same block again leaves the profile as it is.
pub proof fn law_install_into_fresh_profile(content: Seq<char>, body: Seq<char>)
    requires
        find(content, block_start()) is None,
        find(content, block_end()) is None,
        !contains(body, block_end()),
    ensures
        ({
            let block = block_start() + seq!['\n'] + body + seq!['\n'] + block_end() + seq!['\n'];
            &&& upsert_spec(content, block) == if trim(content).len() == 0 {
                block
            } else {
                trim_end_char(content, '\n') + seq!['\n'] + block
            }
            &&& upsert_spec(upsert_spec(content, block), block) == upsert_spec(content, block)
        }),
{
    let block = block_start() + seq!['\n'] + body + seq!['\n'] + block_end() + seq!['\n'];
    lemma_body_block_managed(body);
    law_upsert_settles(content, block);
}

/// The rest of the profile after the block, as it is kept.
pub fn suffix_if_needed(suffix: &str) -> (r: String)
    ensures
        r@ == suffix@,
{
    if suffix.is_empty() {
        String::new()
    } else {
        string_of(&chars_of(suffix))
    }
}

/// Inserts or replaces the managed block in a shell profile's text.
pub fn upsert_managed_block(content: &str, block: &str) -> (r: String)
    ensures
        r@ == upsert_spec(content@, block@),
{
    let c = chars_of(content);
    let b = chars_of(block);
    let start_marker = chars_of(PATH_BLOCK_START);
    let end_marker = chars_of(PATH_BLOCK_END);
    let found_start = find_exec(&c, &start_marker);
    let found_end = find_exec(&c, &end_marker);
    match (found_start, found_end) {
        (Some(start), Some(end)) => {
            if start <= end {
                proof {
                    lemma_find_matches(c@, end_marker@, 0);
                }
                assert(end + end_marker.len() <= c.len());
                let after_end: usize = end + end_marker.len();
                let after = slice_of(&c, after_end, c.len());
                assert(after@ =~= c@.skip(after_end as int));
                let suffix = if after.len() > 0 && after[0] == '\n' {
                    let s = slice_of(&after, 1, after.len());
                    assert(s@ =~= after@.drop_first());
                    s
                } else {
                    after
                };
                let head = slice_of(&c, 0, start);
                assert(head@ =~= c@.take(start as int));
                let prefix = trim_end_char_exec(&head, '\n');
                let mut out = String::new();
                if prefix.len() == 0 {
                    push_chars(&mut out, &b);
                    push_chars(&mut out, &suffix);
                    assert(out@ =~= b@ + suffix@);
                } else if suffix.len() == 0 {
                    push_chars(&mut out, &prefix);
                    push_char(&mut out, '\n');
                    push_chars(&mut out, &b);
                    assert(out@ =~= prefix@ + seq!['\n'] + b@);
                } else {
                    push_chars(&mut out, &prefix);
                    push_char(&mut out, '\n');
                    push_chars(&mut out, &b);
                    push_char(&mut out, '\n');
                    push_chars(&mut out, &suffix);
                    assert(out@ =~= prefix@ + seq!['\n'] + b@ + seq!['\n'] + suffix@);
                }
                return out;
            }
        },
        _ => {},
    }
    let t = trim_chars(&c);
    if t.len() == 0 {
        string_of(&b)
    } else {
        let kept = trim_end_char_exec(&c, '\n');
        let mut out = string_of(&kept);
        push_char(&mut out, '\n');
        push_chars(&mut out, &b);
        assert(out@ =~= kept@ + seq!['\n'] + b@);
        out
    }
}

/// The block that adds `dir` to `PATH` in POSIX shell profiles.
pub open spec fn unix_block_spec(dir: Seq<char>) -> Seq<char> {
    block_start() + "\nexport PATH=\""@ + dir + ":$PATH\"\n"@ + block_end() + "\n"@
}

/// The block that adds `dir` to `PATH` in fish configuration.
pub open spec fn fish_block_spec(dir: Seq<char>) -> Seq<char> {
    block_start() + "\nif not contains \""@ + dir + "\" $PATH\n    set -gx PATH \""@ + dir
        + "\" $PATH\nend\n"@ + block_end() + "\n"@
}

/// The POSIX block is a managed block, unless `dir` itself holds the end marker.
pub proof fn lemma_unix_block_managed(dir: Seq<char>)
    requires
        !contains(dir, block_end()),
    ensures
        is_managed_block(unix_block_spec(dir)),
{
    lemma_markers();
    reveal_strlit("\nexport PATH=\"");
    reveal_strlit(":$PATH\"\n");
    reveal_strlit("\n");
    let b = unix_block_spec(dir);
    let d = dir.len() as int;
    let k = 43 + d;
    assert(b.take(21) =~= block_start());
    assert(b.skip(b.len() - 22) =~= block_end() + seq!['\n']);
    assert(b.subrange(k, k + 21) =~= block_end());
    assert forall|j: int| 0 <= j < k implies !matches_at(b, block_end(), j) by {
        if matches_at(b, block_end(), j) {
            assert(b.subrange(j, j + 21)[0] == b[j]);
            if j == 0 {
                assert(b.subrange(j, j + 21)[2] == b[2]);
            } else if 35 <= j < 35 + d {
                if j + 21 <= 35 + d {
                    assert(b.subrange(j, j + 21) =~= dir.subrange(j - 35, j - 35 + 21));
                    lemma_find_from_skips(dir, block_end(), 0, j - 35);
                } else {
                    assert(b.subrange(j, j + 21)[35 + d - j] == b[35 + d]);
                }
            }
        }
    }
    lemma_find_from_first(b, block_end(), 0, k);
}

/// The fish block is a managed block, unless `dir` itself holds the end marker.
pub proof fn lemma_fish_block_managed(dir: Seq<char>)
    requires
        !contains(dir, block_end()),
    ensures
        is_managed_block(fish_block_spec(dir)),
{
    lemma_markers();
    reveal_strlit("\nif not contains \"");
    reveal_strlit("\" $PATH\n    set -gx PATH \"");
    reveal_strlit("\" $PATH\nend\n");
    reveal_strlit("\n");
    let b = fish_block_spec(dir);
    let d = dir.len() as int;
    let k = 77 + 2 * d;
    assert(b.take(21) =~= block_start());
    assert(b.skip(b.len() - 22) =~= block_end() + seq!['\n']);
    assert(b.subrange(k, k + 21) =~= block_end());
    assert forall|j: int| 0 <= j < k implies !matches_at(b, block_end(), j) by {
        if matches_at(b, block_end(), j) {
            assert(b.subrange(j, j + 21)[0] == b[j]);
            if j == 0 {
                assert(b.subrange(j, j + 21)[2] == b[2]);
            } else if 39 <= j < 39 + d {
                if j + 21 <= 39 + d {
                    assert(b.subrange(j, j + 21) =~= dir.subrange(j - 39, j - 39 + 21));
                    lemma_find_from_skips(dir, block_end(), 0, j - 39);
                } else {
                    assert(b.subrange(j, j + 21)[39 + d - j] == b[39 + d]);
                }
            } else if 65 + d <= j < 65 + 2 * d {
                if j + 21 <= 65 + 2 * d {
                    assert(b.subrange(j, j + 21) =~= dir.subrange(
                        j - 65 - d,
                        j - 65 - d + 21,
                    ));
                    lemma_find_from_skips(dir, block_end(), 0, j - 65 - d);
                } else {
                    assert(b.subrange(j, j + 21)[65 + 2 * d - j] == b[65 + 2 * d]);
                }
            }
        }
    }
    lemma_find_from_first(b, block_end(), 0, k);
}

/// The managed block for POSIX shells.
pub fn unix_path_block(dir: &str) -> (r: String)
    ensures
        r@ == unix_block_spec(dir@),
{
    let mut out = String::new();
    push_str(&mut out, PATH_BLOCK_START);
    push_str(&mut out, "\nexport PATH=\"");
    push_str(&mut out, dir);
    push_str(&mut out, ":$PATH\"\n");
    push_str(&mut out, PATH_BLOCK_END);
    push_str(&mut out, "\n");
    assert(out@ =~= unix_block_spec(dir@));
    out
}

/// The managed block for fish.
pub fn fish_path_block(dir: &str) -> (r: String)
    ensures
        r@ == fish_block_spec(dir@),
{
    let mut out = String::new();
    push_str(&mut out, PATH_BLOCK_START);
    push_str(&mut out, "\nif not contains \"");
    push_str(&mut out, dir);
    push_str(&mut out, "\" $PATH\n    set -gx PATH \"");
    push_str(&mut out, dir);
    push_str(&mut out, "\" $PATH\nend\n");
    push_str(&mut out, PATH_BLOCK_END);
    push_str(&mut out, "\n");
    assert(out@ =~= fish_block_spec(dir@));
    out
}

/// Whether a POSIX profile is managed: one that exists always is; a missing
/// `.profile` is created; bash files only for a bash login shell, zsh files
/// only for zsh.
pub open spec fn manage_unix_spec(present: bool, name: Option<Seq<char>>, shell: Seq<char>) -> bool {
    if present {
        true
    } else {
        match name {
            None => false,
            Some(n) => if n == ".profile"@ {
                true
            } else if n == ".bash_profile"@ || n == ".bashrc"@ {
                contains(shell, "bash"@)
            } else if n == ".zshrc"@ || n == ".zprofile"@ {
                contains(shell, "zsh"@)
            } else {
                false
            },
        }
    }
}

/// Whether installation manages the profile named `file_name` (which exists
/// or not) for the login shell `shell`.
pub fn should_manage_unix_file(present: bool, file_name: Option<&str>, shell: &str) -> (r: bool)
    ensures
        r == manage_unix_spec(
            present,
            match file_name {
                Some(n) => Some(n@),
                None => None,
            },
            shell@,
        ),
{
    if present {
        return true;
    }
    let name = match file_name {
        Some(n) => chars_of(n),
        None => return false,
    };
    let sh = chars_of(shell);
    if chars_eq_str(&name, ".profile") {
        true
    } else if chars_eq_str(&name, ".bash_profile") || chars_eq_str(&name, ".bashrc") {
        contains_exec(&sh, &chars_of("bash"))
    } else if chars_eq_str(&name, ".zshrc") || chars_eq_str(&name, ".zprofile") {
        contains_exec(&sh, &chars_of("zsh"))
    } else {
        false
    }
}

/// Whether the fish configuration is managed: when it exists or the login
/// shell is fish.
pub fn should_manage_fish(present: bool, shell: &str) -> (r: bool)
    ensures
        r == (present || contains(shell@, "fish"@)),
{
    present || contains_exec(&chars_of(shell), &chars_of("fish"))
}

} // verus!
