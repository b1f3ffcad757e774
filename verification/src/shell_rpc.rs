//! Commands sent to the shell on behalf of the tree view, and the parsers
//! of what the shell prints back.

use crate::error::{ErrorKind, GatewayError};
use crate::events::{Emit, OutEvent};
use crate::pump::{chunk_of, decode_chunk, Chunk, ChunkView};
use crate::registry::{email_index, has_email, secondary_for, Registry, SessionView};
use crate::router::{no_terminal_text, session_not_found, WriteOrder};
use crate::text::{
    chars_of, concat2, contains, decimal, fields_of, has_substring, join_from, joined_from,
    lemma_first_line_len_at, lemma_trimmed, lines_of, push_decimal, push_str, rows, same_chars,
    split_fields, split_lines, starts_with, string_of, trim, trimmed, unicode_whitespace,
};
use regex::Regex;
use vstd::prelude::*;
use vstd::slice::slice_to_vec;
use vstd::utf8::encode_utf8;

verus! {

/// One entry of a directory listing: its name and whether it is a directory.
#[derive(Clone, Debug, PartialEq, Eq)]
pub struct DirItem {
    pub name: String,
    pub is_dir: bool,
}

impl View for DirItem {
    type V = (Seq<char>, bool);

    open spec fn view(&self) -> (Seq<char>, bool) {
        (self.name@, self.is_dir)
    }
}

/// The views of the items of `v`, in order.
pub open spec fn item_views(v: Seq<DirItem>) -> Seq<(Seq<char>, bool)> {
    Seq::new(v.len(), |i: int| v[i]@)
}

/// How long the reply to `pwd` is waited for, in milliseconds.
pub const CWD_TIMEOUT_MS: u64 = 1000;

/// How long the shell is given before the reply to `pwd` is read, in
/// milliseconds.
pub const CWD_SETTLE_MS: u64 = 100;

/// How long the shell is given before the reply to a listing is read, in
/// milliseconds.
pub const LIST_SETTLE_MS: u64 = 200;

/// How long the reply to a listing is waited for, in milliseconds.
pub const LIST_TIMEOUT_MS: u64 = 1500;

/// The text that `Regex::new(pattern)` followed by `replace_all(text,
/// replacement)` gives, or `None` where the pattern does not compile.
pub uninterp spec fn regex_replaced(
    pattern: Seq<char>,
    text: Seq<char>,
    replacement: Seq<char>,
) -> Option<Seq<char>>;

/// `regex::Regex::new` and, on the expression it built,
/// `Regex::replace_all`. The contract only names the result: the same
/// pattern, text and replacement give the same answer, and `None` stands for
/// a pattern that the crate refuses.
#[verifier::external_body]
fn regex_replace_all(pattern: &str, text: &str, replacement: &str) -> (r: Option<String>)
    ensures
        r matches Some(s) ==> regex_replaced(pattern@, text@, replacement@) == Some(s@),
        r is None ==> regex_replaced(pattern@, text@, replacement@) is None,
{
    match Regex::new(pattern) {
        Ok(re) => Some(re.replace_all(text, replacement).into_owned()),
        Err(_) => None,
    }
}

/// The pattern of a colour escape: ESC, `[`, digits and semicolons, `m`.
pub open spec fn ansi_pattern() -> Seq<char> {
    "\\x1b\\[[0-9;]*m"@
}

/// `text` with every match of the colour-escape pattern taken out; `text`
/// itself where the pattern is refused.
pub open spec fn without_ansi(text: Seq<char>) -> Seq<char> {
    match regex_replaced(ansi_pattern(), text, ""@) {
        Some(s) => s,
        None => text,
    }
}

/// Removes the colour escapes from `text`.
pub fn strip_ansi_codes(text: &str) -> (r: String)
    ensures
        r@ == without_ansi(text@),
{
    match regex_replace_all("\\x1b\\[[0-9;]*m", text, "") {
        Some(s) => s,
        None => text.to_owned(),
    }
}

/// A line that carries no answer to `pwd`: blank, the echoed command, or a
/// prompt.
pub open spec fn cwd_noise(line: Seq<char>) -> bool {
    ||| trimmed(line).len() == 0
    ||| has_substring(line, "pwd"@)
    ||| "root@"@.is_prefix_of(line)
    ||| has_substring(line, "#"@)
}

/// What a line contributes to the answer to `pwd`.
pub open spec fn cwd_candidate(line: Seq<char>) -> Option<Seq<char>> {
    if cwd_noise(line) {
        None
    } else {
        Some(trimmed(line))
    }
}

/// The working directory that the cleaned output of `pwd` reports: the first
/// line that is no noise, trimmed, or `/` where there is none.
pub open spec fn cwd_of(clean: Seq<char>) -> Seq<char> {
    let kept = lines_of(clean).filter_map(|l: Seq<char>| cwd_candidate(l));
    if kept.len() > 0 {
        kept[0]
    } else {
        "/"@
    }
}

/// Once an item of `s` is kept and none before it, it is the first of
/// what `filter_map` keeps of any longer prefix.
proof fn lemma_filter_map_first<A, B>(s: Seq<A>, f: spec_fn(A) -> Option<B>, i: int, k: int)
    requires
        0 <= i < k <= s.len(),
        s.take(i).filter_map(f).len() == 0,
        f(s[i]) is Some,
    ensures
        s.take(k).filter_map(f).len() > 0,
        s.take(k).filter_map(f)[0] == f(s[i])->0,
    decreases k - i,
{
    if k == i + 1 {
        s.lemma_filter_map_take_succ(f, i);
    } else {
        lemma_filter_map_first(s, f, i, k - 1);
        s.lemma_filter_map_take_succ(f, k - 1);
    }
}

/// `line` holds no line feed.
pub open spec fn is_one_line(line: Seq<char>) -> bool {
    forall|i: int| 0 <= i < line.len() ==> #[trigger] line[i] != '\n'
}

/// The lines `lines`, each with a line feed behind it, put together.
pub open spec fn with_line_feeds(lines: Seq<Seq<char>>) -> Seq<char>
    decreases lines.len(),
{
    if lines.len() == 0 {
        Seq::empty()
    } else {
        lines[0] + seq!['\n'] + with_line_feeds(lines.drop_first())
    }
}

/// A text that starts with a line and its line feed has that line as its
/// first line, and the lines of what follows as its other lines.
pub proof fn lemma_lines_of_first(line: Seq<char>, rest: Seq<char>)
    requires
        is_one_line(line),
    ensures
        lines_of(line + seq!['\n'] + rest) == seq![line] + lines_of(rest),
{
    let s = line + seq!['\n'] + rest;
    let n = line.len() as int;
    assert forall|i: int| 0 <= i < n implies #[trigger] s[i] != '\n' by {
        assert(s[i] == line[i]);
    }
    assert(s[n] == '\n');
    lemma_first_line_len_at(s, n);
    assert(s.subrange(0, n) =~= line);
    assert(s.subrange(n + 1, s.len() as int) =~= rest);
}

/// Lines that are all noise contribute nothing to the answer to `pwd`.
proof fn lemma_noise_is_dropped(noise: Seq<Seq<char>>)
    requires
        forall|k: int| 0 <= k < noise.len() ==> cwd_noise(#[trigger] noise[k]),
    ensures
        noise.filter_map(|l: Seq<char>| cwd_candidate(l)).len() == 0,
    decreases noise.len(),
{
    if noise.len() > 0 {
        let shorter = noise.drop_last();
        assert forall|k: int| 0 <= k < shorter.len() implies cwd_noise(#[trigger] shorter[k]) by {
            assert(shorter[k] == noise[k]);
        }
        lemma_noise_is_dropped(shorter);
        assert(cwd_noise(noise[noise.len() - 1]));
    }
}

/// The lines of noise lines with their line feeds, followed by more text,
/// are the noise lines and then the lines of that text.
proof fn lemma_lines_of_prefix(noise: Seq<Seq<char>>, rest: Seq<char>)
    requires
        forall|k: int| 0 <= k < noise.len() ==> is_one_line(#[trigger] noise[k]),
    ensures
        lines_of(with_line_feeds(noise) + rest) == noise + lines_of(rest),
    decreases noise.len(),
{
    if noise.len() == 0 {
        assert(with_line_feeds(noise) + rest =~= rest);
        assert(noise + lines_of(rest) =~= lines_of(rest));
    } else {
        let tail = noise.drop_first();
        assert forall|k: int| 0 <= k < tail.len() implies is_one_line(#[trigger] tail[k]) by {
            assert(tail[k] == noise[k + 1]);
        }
        lemma_lines_of_prefix(tail, rest);
        assert(is_one_line(noise[0]));
        lemma_lines_of_first(noise[0], with_line_feeds(tail) + rest);
        assert(with_line_feeds(noise) + rest =~= noise[0] + seq!['\n'] + (with_line_feeds(tail)
            + rest));
        assert(seq![noise[0]] + (tail + lines_of(rest)) =~= noise + lines_of(rest));
    }
}

/// The directory that the shell prints is the directory that is reported:
/// where the output of `pwd` holds lines of noise (the echoed command,
/// prompts, blank lines), then the line with the directory, then anything,
/// the directory is what that line holds between its surrounding
/// whitespace, and it neither starts nor ends with whitespace. A directory
/// whose line is noise itself, because its name holds `pwd` or `#` or starts
/// with `root@`, is not reported.
pub proof fn lemma_cwd_is_the_printed_directory(
    noise: Seq<Seq<char>>,
    line: Seq<char>,
    rest: Seq<char>,
)
    requires
        forall|k: int| 0 <= k < noise.len() ==> cwd_noise(#[trigger] noise[k]),
        forall|k: int| 0 <= k < noise.len() ==> is_one_line(#[trigger] noise[k]),
        is_one_line(line),
        !cwd_noise(line),
    ensures
        cwd_of(with_line_feeds(noise) + line + seq!['\n'] + rest) == trimmed(line),
        trimmed(line).len() > 0,
        !unicode_whitespace(trimmed(line)[0]),
        !unicode_whitespace(trimmed(line).last()),
{
    let f = |l: Seq<char>| cwd_candidate(l);
    let text = with_line_feeds(noise) + line + seq!['\n'] + rest;
    lemma_lines_of_first(line, rest);
    lemma_lines_of_prefix(noise, line + seq!['\n'] + rest);
    assert(text =~= with_line_feeds(noise) + (line + seq!['\n'] + rest));
    let all = lines_of(text);
    let k = noise.len() as int;
    assert(all =~= noise + (seq![line] + lines_of(rest)));
    assert(all.take(k) =~= noise);
    lemma_noise_is_dropped(noise);
    assert(all[k] == line);
    lemma_filter_map_first(all, f, k, all.len() as int);
    assert(all.take(all.len() as int) =~= all);
    lemma_trimmed(line);
}

/// Whether `line` carries no answer to `pwd`.
fn is_cwd_noise(line: &Vec<char>) -> (b: bool)
    ensures
        b == cwd_noise(line@),
{
    let t = trim(line);
    if t.len() == 0 {
        return true;
    }
    let pwd = chars_of("pwd");
    let root = chars_of("root@");
    let hash = chars_of("#");
    contains(line, &pwd) || starts_with(line, &root) || contains(line, &hash)
}

/// The working directory reported by the output of `pwd`, colour escapes
/// already removed.
pub fn parse_cwd(clean_output: &str) -> (r: String)
    ensures
        r@ == cwd_of(clean_output@),
{
    let text = chars_of(clean_output);
    let lines = split_lines(&text);
    let ghost f = |l: Seq<char>| cwd_candidate(l);
    let ghost all = rows(lines@);
    let mut i: usize = 0;
    while i < lines.len()
        invariant
            i <= lines.len(),
            all == rows(lines@),
            all == lines_of(clean_output@),
            f == (|l: Seq<char>| cwd_candidate(l)),
            all.take(i as int).filter_map(f).len() == 0,
        decreases lines.len() - i,
    {
        assert(all[i as int] == lines@[i as int]@);
        if !is_cwd_noise(&lines[i]) {
            let t = trim(&lines[i]);
            proof {
                lemma_filter_map_first(all, f, i as int, all.len() as int);
                assert(all.take(all.len() as int) =~= all);
            }
            return string_of(&t);
        }
        proof {
            all.lemma_filter_map_take_succ(f, i as int);
        }
        i += 1;
    }
    proof {
        assert(all.take(all.len() as int) =~= all);
    }
    "/".to_owned()
}

/// The working directory for a reply to `pwd`: parsed from the reply with
/// its colour escapes removed, or `/` where no reply came in time.
pub fn get_current_directory(reply: Option<&str>) -> (r: String)
    ensures
        r@ == match reply {
            Some(out) => cwd_of(without_ansi(out@)),
            None => "/"@,
        },
{
    match reply {
        Some(out) => {
            let clean = strip_ansi_codes(out);
            parse_cwd(clean.as_str())
        },
        None => "/".to_owned(),
    }
}

/// A line of a listing that names no entry: blank, the echoed command, a
/// prompt, or the line that gives the total.
pub open spec fn listing_noise(line: Seq<char>) -> bool {
    ||| trimmed(line).len() == 0
    ||| has_substring(line, "ls -la"@)
    ||| "root@"@.is_prefix_of(line)
    ||| has_substring(line, "#"@)
    ||| "total "@.is_prefix_of(line)
}

/// The two entries that every directory has.
pub open spec fn is_dot_entry(name: Seq<char>) -> bool {
    name == "."@ || name == ".."@
}

/// Names that the tree view leaves out.
pub open spec fn is_pruned(name: Seq<char>) -> bool {
    ||| name == "node_modules"@
    ||| name == ".git"@
    ||| name == "__pycache__"@
    ||| name == ".cache"@
}

/// The entry that a line of `ls -la` names, if any: the line must have at
/// least nine fields; the ninth and later fields, joined by single spaces,
/// are the name; the entry is a directory where the first field starts with
/// `d`.
pub open spec fn entry_of(line: Seq<char>) -> Option<(Seq<char>, bool)> {
    let f = fields_of(line);
    if listing_noise(line) || f.len() < 9 {
        None
    } else {
        let name = joined_from(f, 8);
        if is_dot_entry(name) || is_pruned(name) {
            None
        } else {
            Some((name, f[0].len() > 0 && f[0][0] == 'd'))
        }
    }
}

/// The entries that the cleaned output of a listing names, in order.
pub open spec fn listing_of(clean: Seq<char>) -> Seq<(Seq<char>, bool)> {
    lines_of(clean).filter_map(|l: Seq<char>| entry_of(l))
}

/// Whether `line` names no entry.
fn is_listing_noise(line: &Vec<char>) -> (b: bool)
    ensures
        b == listing_noise(line@),
{
    let t = trim(line);
    if t.len() == 0 {
        return true;
    }
    let ls = chars_of("ls -la");
    let root = chars_of("root@");
    let hash = chars_of("#");
    let total = chars_of("total ");
    contains(line, &ls) || starts_with(line, &root) || contains(line, &hash) || starts_with(
        line,
        &total,
    )
}

/// Whether `name` is left out of a listing: the two entries that every
/// directory has, and the names that the tree view prunes.
pub fn is_skipped_name(name: &Vec<char>) -> (b: bool)
    ensures
        b == (is_dot_entry(name@) || is_pruned(name@)),
{
    let dot = chars_of(".");
    let dotdot = chars_of("..");
    let modules = chars_of("node_modules");
    let git = chars_of(".git");
    let pycache = chars_of("__pycache__");
    let cache = chars_of(".cache");
    same_chars(name, &dot) || same_chars(name, &dotdot) || same_chars(name, &modules)
        || same_chars(name, &git) || same_chars(name, &pycache) || same_chars(name, &cache)
}

/// The entry that `line` names, if any.
fn parse_entry(line: &Vec<char>) -> (r: Option<DirItem>)
    ensures
        r is Some <==> entry_of(line@) is Some,
        r matches Some(item) ==> entry_of(line@) == Some(item@),
{
    if is_listing_noise(line) {
        return None;
    }
    let fields = split_fields(line);
    if fields.len() < 9 {
        return None;
    }
    let name = join_from(&fields, 8);
    if is_skipped_name(&name) {
        return None;
    }
    assert(rows(fields@)[0] == fields@[0]@);
    let is_dir = fields[0].len() > 0 && fields[0][0] == 'd';
    Some(DirItem { name: string_of(&name), is_dir })
}

/// The entries named by the output of a listing, colour escapes already
/// removed.
pub fn parse_listing(clean_output: &str) -> (r: Vec<DirItem>)
    ensures
        item_views(r@) == listing_of(clean_output@),
{
    let text = chars_of(clean_output);
    let lines = split_lines(&text);
    let ghost f = |l: Seq<char>| entry_of(l);
    let ghost all = rows(lines@);
    let mut out: Vec<DirItem> = Vec::new();
    let mut i: usize = 0;
    assert(item_views(out@) =~= all.take(0).filter_map(f));
    while i < lines.len()
        invariant
            i <= lines.len(),
            all == rows(lines@),
            all == lines_of(clean_output@),
            f == (|l: Seq<char>| entry_of(l)),
            item_views(out@) == all.take(i as int).filter_map(f),
        decreases lines.len() - i,
    {
        assert(all[i as int] == lines@[i as int]@);
        let ghost before = item_views(out@);
        proof {
            all.lemma_filter_map_take_succ(f, i as int);
        }
        match parse_entry(&lines[i]) {
            Some(item) => {
                let ghost v = item@;
                out.push(item);
                assert(item_views(out@) =~= before + seq![v]);
            },
            None => {},
        }
        i += 1;
    }
    proof {
        assert(all.take(all.len() as int) =~= all);
    }
    out
}

/// The entries of a directory for a reply to its listing: parsed from the
/// reply with its colour escapes removed, or none where no reply came in
/// time.
pub fn get_directory_items(reply: Option<&str>) -> (r: Vec<DirItem>)
    ensures
        item_views(r@) == match reply {
            Some(out) => listing_of(without_ansi(out@)),
            None => Seq::<(Seq<char>, bool)>::empty(),
        },
{
    match reply {
        Some(out) => {
            let clean = strip_ansi_codes(out);
            parse_listing(clean.as_str())
        },
        None => {
            let r: Vec<DirItem> = Vec::new();
            assert(item_views(r@) =~= Seq::<(Seq<char>, bool)>::empty());
            r
        },
    }
}

/// The command that asks the shell for its working directory.
pub fn cwd_command() -> (r: String)
    ensures
        r@ == "pwd\n"@,
{
    "pwd\n".to_owned()
}

/// The command that lists `path`: a long listing without colours and
/// without its first line, errors discarded. No newline is left out: the
/// command ends with one.
pub open spec fn list_command_of(path: Seq<char>) -> Seq<char> {
    "ls -la --color=never '"@ + path + "' 2>/dev/null | tail -n +2\n"@
}

/// The command that lists `path`.
pub fn list_command(path: &str) -> (r: String)
    ensures
        r@ == list_command_of(path@),
{
    let mut v = chars_of("ls -la --color=never '");
    push_str(&mut v, path);
    push_str(&mut v, "' 2>/dev/null | tail -n +2\n");
    string_of(&v)
}

/// The directory at which the tree view starts: the working directory, with
/// `/home` in place of `/`.
pub fn tree_root(cwd: &str) -> (r: String)
    ensures
        r@ == (if cwd@ == "/"@ {
            "/home"@
        } else {
            cwd@
        }),
{
    let c = chars_of(cwd);
    let slash = chars_of("/");
    if same_chars(&c, &slash) {
        "/home".to_owned()
    } else {
        cwd.to_owned()
    }
}

/// A character that may stand in a project name: an ASCII letter or digit,
/// `_` or `-`.
pub open spec fn is_project_char(c: char) -> bool {
    ||| 'a' <= c <= 'z'
    ||| 'A' <= c <= 'Z'
    ||| '0' <= c <= '9'
    ||| c == '_'
    ||| c == '-'
}

/// `name` without the characters that may not stand in a project name.
pub open spec fn sanitized_name(name: Seq<char>) -> Seq<char> {
    name.filter(|c: char| is_project_char(c))
}

/// The text of the error for a name of which nothing is left.
pub open spec fn empty_name_message() -> Seq<char> {
    "Project name contains no valid characters"@
}

/// The name under which a project is created: `project_name` reduced to
/// letters, digits, `_` and `-`. A name of which nothing is left is refused
/// as bad input.
pub fn sanitize_project_name(project_name: &str) -> (r: Result<String, GatewayError>)
    ensures
        r is Ok <==> sanitized_name(project_name@).len() > 0,
        r matches Ok(s) ==> s@ == sanitized_name(project_name@),
        r matches Err(e) ==> e.kind == ErrorKind::BadInput && e.message@ == empty_name_message(),
{
    let name = chars_of(project_name);
    let ghost p = |c: char| is_project_char(c);
    let mut out: Vec<char> = Vec::new();
    let mut i: usize = 0;
    proof {
        reveal(Seq::filter);
        assert(name@.take(0).filter(p) =~= out@);
    }
    while i < name.len()
        invariant
            i <= name.len(),
            p == (|c: char| is_project_char(c)),
            out@ == name@.take(i as int).filter(p),
        decreases name.len() - i,
    {
        let c = name[i];
        proof {
            assert(name@.take(i + 1) =~= name@.take(i as int).push(c));
            name@.take(i as int).lemma_filter_push(c, p);
        }
        if ('a' <= c && c <= 'z') || ('A' <= c && c <= 'Z') || ('0' <= c && c <= '9') || c == '_'
            || c == '-' {
            out.push(c);
        }
        i += 1;
    }
    proof {
        assert(name@.take(name.len() as int) =~= name@);
    }
    if out.len() == 0 {
        Err(
            GatewayError::new(
                ErrorKind::BadInput,
                "Project name contains no valid characters".to_owned(),
            ),
        )
    } else {
        Ok(string_of(&out))
    }
}

/// A project name made of symbols alone is refused: nothing is left of a
/// name in which no character is a letter, a digit, `_` or `-`.
pub proof fn lemma_symbols_only_rejected(name: Seq<char>)
    requires
        forall|i: int| 0 <= i < name.len() ==> !is_project_char(#[trigger] name[i]),
    ensures
        sanitized_name(name).len() == 0,
    decreases name.len(),
{
    reveal(Seq::filter);
    if name.len() > 0 {
        let r = name.drop_last();
        assert forall|i: int| 0 <= i < r.len() implies !is_project_char(#[trigger] r[i]) by {
            assert(r[i] == name[i]);
        }
        lemma_symbols_only_rejected(r);
    }
}

/// The commands that create the project directory `sanitized` under
/// `/home`, in the order in which they are written to the shell.
pub open spec fn project_commands_of(sanitized: Seq<char>) -> Seq<Seq<char>> {
    seq!["cd /home\n"@, "mkdir "@ + sanitized + "\n"@]
}

/// The commands that create a project named `project_name`.
pub fn project_commands(project_name: &str) -> (r: Result<Vec<String>, GatewayError>)
    ensures
        r is Ok <==> sanitized_name(project_name@).len() > 0,
        r matches Ok(cmds) ==> Seq::new(cmds@.len(), |i: int| cmds@[i]@) == project_commands_of(
            sanitized_name(project_name@),
        ),
        r matches Err(e) ==> e.kind == ErrorKind::BadInput && e.message@ == empty_name_message(),
{
    match sanitize_project_name(project_name) {
        Ok(name) => {
            let mut mkdir = chars_of("mkdir ");
            push_str(&mut mkdir, name.as_str());
            push_str(&mut mkdir, "\n");
            let mut cmds: Vec<String> = Vec::new();
            cmds.push("cd /home\n".to_owned());
            cmds.push(string_of(&mkdir));
            assert(Seq::new(cmds@.len(), |i: int| cmds@[i]@) =~= project_commands_of(
                sanitized_name(project_name@),
            ));
            Ok(cmds)
        },
        Err(e) => Err(e),
    }
}

/// How long the shell is given to create a project before its terminal is
/// flushed, in milliseconds.
pub const PROJECT_SETTLE_MS: u64 = 100;

/// A command for the shell that serves the tree view of `email`: it goes to
/// the pseudo-terminal kept for shell commands, byte for byte. A user
/// without one gets `SessionNotFound`.
pub fn shell_order(registry: &Registry, email: &str, command: &str) -> (r: Result<
    WriteOrder,
    GatewayError,
>)
    ensures
        r is Ok <==> secondary_for(registry@, email@) is Some,
        r matches Ok(order) ==> Some(order.handle) == secondary_for(registry@, email@)
            && order.bytes@ == encode_utf8(command@),
        r matches Err(e) ==> e.kind == ErrorKind::SessionNotFound && e.message@
            == no_terminal_text(email@),
{
    match registry.secondary_of(email) {
        Some(handle) => Ok(
            WriteOrder { handle, bytes: slice_to_vec(command.as_bytes()) },
        ),
        None => Err(session_not_found(email)),
    }
}

/// The request to create a project.
#[derive(Debug, PartialEq, Eq)]
pub struct CreateProjectPayload {
    pub email: String,
    pub project_name: String,
}

/// What is done to create a project: the commands written to the shell, in
/// order, and the frame that reports the project once they are flushed.
#[derive(Debug, PartialEq, Eq)]
pub struct ProjectOrder {
    pub handle: u64,
    pub commands: Vec<String>,
    pub created: Emit,
}

/// Why a request to create a project named `name` is refused, if it is:
/// the name comes first, then the shell, which the user has or has not.
pub open spec fn project_refusal(name: Seq<char>, has_shell: bool) -> Option<ErrorKind> {
    if sanitized_name(name).len() == 0 {
        Some(ErrorKind::BadInput)
    } else if !has_shell {
        Some(ErrorKind::SessionNotFound)
    } else {
        None
    }
}

/// Plans the creation of a project. The name is judged first: it is
/// reduced to the characters that a project name may hold, and where
/// nothing is left the request is refused as `BadInput`, whatever the
/// session. Then the shell of the user is looked up: without one the request
/// fails with `SessionNotFound`. Else the project directory is made under
/// `/home`, and the client is told the name as it was asked for. A request
/// that is refused writes nothing and changes nothing.
pub fn create_new_project(registry: &Registry, payload: &CreateProjectPayload) -> (r: Result<
    ProjectOrder,
    GatewayError,
>)
    ensures
        r is Ok <==> sanitized_name(payload.project_name@).len() > 0 && secondary_for(
            registry@,
            payload.email@,
        ) is Some,
        r matches Ok(order) ==> Some(order.handle) == secondary_for(registry@, payload.email@)
            && Seq::new(order.commands@.len(), |i: int| order.commands@[i]@)
            == project_commands_of(sanitized_name(payload.project_name@)) && order.created@ == (
            OutEvent::RepoCreated,
            payload.project_name@,
        ),
        r matches Err(e) ==> Some(e.kind) == project_refusal(
            payload.project_name@,
            secondary_for(registry@, payload.email@) is Some,
        ),
        r matches Err(e) ==> (if sanitized_name(payload.project_name@).len() == 0 {
            e.kind == ErrorKind::BadInput && e.message@ == empty_name_message()
        } else {
            e.kind == ErrorKind::SessionNotFound && e.message@ == no_terminal_text(payload.email@)
        }),
{
    let commands = match project_commands(payload.project_name.as_str()) {
        Ok(commands) => commands,
        Err(e) => {
            return Err(e);
        },
    };
    match registry.secondary_of(payload.email.as_str()) {
        Some(handle) => Ok(
            ProjectOrder {
                handle,
                commands,
                created: Emit::new(OutEvent::RepoCreated, payload.project_name.clone()),
            },
        ),
        None => Err(session_not_found(payload.email.as_str())),
    }
}

/// A project name made of symbols alone is refused as bad input whoever
/// asks and whatever the registry holds: for such a name no shell is looked
/// up and nothing is written.
pub proof fn lemma_symbols_only_is_bad_input(name: Seq<char>)
    requires
        forall|i: int| 0 <= i < name.len() ==> !is_project_char(#[trigger] name[i]),
    ensures
        project_refusal(name, true) == Some(ErrorKind::BadInput),
        project_refusal(name, false) == Some(ErrorKind::BadInput),
{
    lemma_symbols_only_rejected(name);
}

/// What a read of a pseudo-terminal gave.
#[derive(Debug, PartialEq, Eq)]
pub enum ReadEvent {
    /// These bytes, at least one.
    Bytes(Vec<u8>),
    /// The end of the output.
    Eof,
    /// An error, with the message of the system.
    Failed(String),
}

/// Why the shell of `email` cannot be read, seen from the registry: the
/// user is registered without a pseudo-terminal for shell commands, or is
/// not registered at all.
pub open spec fn unreadable_text(registered: bool, email: Seq<char>) -> Seq<char> {
    if registered {
        "No active terminal for user: "@ + email
    } else {
        "User "@ + email + " not found in terminal mapping"@
    }
}

/// The pseudo-terminal from which the answers of the shell of `email` are
/// read.
pub fn read_order(registry: &Registry, email: &str) -> (r: Result<u64, GatewayError>)
    ensures
        r is Ok <==> secondary_for(registry@, email@) is Some,
        r matches Ok(handle) ==> Some(handle) == secondary_for(registry@, email@),
        r matches Err(e) ==> e.kind == ErrorKind::SessionNotFound && e.message@
            == unreadable_text(has_email(registry@, email@), email@),
{
    match registry.secondary_of(email) {
        Some(handle) => Ok(handle),
        None => {
            let mut text: Vec<char> = Vec::new();
            if registry.contains(email) {
                push_str(&mut text, "No active terminal for user: ");
                push_str(&mut text, email);
            } else {
                push_str(&mut text, "User ");
                push_str(&mut text, email);
                push_str(&mut text, " not found in terminal mapping");
            }
            assert(text@ =~= unreadable_text(has_email(registry@, email@), email@));
            Err(GatewayError::new(ErrorKind::SessionNotFound, string_of(&text)))
        },
    }
}

/// The text that a buffer read from the shell stands for: the text of its
/// longest prefix that is valid UTF-8, or its bytes hex-escaped where not
/// even its first character decodes.
pub open spec fn output_text(bytes: Seq<u8>) -> Seq<char> {
    match chunk_of(bytes) {
        ChunkView::Text { text, rest } => text,
        ChunkView::Binary { hex } => hex,
    }
}

/// `s` with the pseudo-terminal for shell commands of `email` forgotten.
pub open spec fn without_secondary(s: Seq<SessionView>, email: Seq<char>) -> Seq<SessionView> {
    if has_email(s, email) {
        s.update(
            email_index(s, email),
            SessionView { secondary: None, ..s[email_index(s, email)] },
        )
    } else {
        s
    }
}

/// What one read of the shell of `email` means. Bytes become text. The end
/// of the output ends the shell: its pseudo-terminal is forgotten in the
/// registry, and the read fails with `Terminal session ended`. An error of
/// the system is passed on with its message.
pub fn read_terminal_output(registry: &mut Registry, email: &str, event: ReadEvent) -> (r: Result<
    String,
    GatewayError,
>)
    ensures
        match event {
            ReadEvent::Bytes(bytes) => r matches Ok(text) && text@ == output_text(bytes@)
                && final(registry)@ == old(registry)@,
            ReadEvent::Eof => r matches Err(e) && e.kind == ErrorKind::PtyIoError && e.message@
                == "Terminal session ended"@ && final(registry)@ == without_secondary(
                old(registry)@,
                email@,
            ),
            ReadEvent::Failed(message) => r matches Err(e) && e.kind == ErrorKind::PtyIoError
                && e.message@ == message@ && final(registry)@ == old(registry)@,
        },
{
    match event {
        ReadEvent::Bytes(bytes) => {
            match decode_chunk(bytes.as_slice()) {
                Chunk::Text { text, rest } => Ok(text),
                Chunk::Binary { hex } => Ok(hex),
            }
        },
        ReadEvent::Eof => {
            let _ = registry.set_secondary(email, None);
            Err(GatewayError::new(ErrorKind::PtyIoError, "Terminal session ended".to_owned()))
        },
        ReadEvent::Failed(message) => Err(GatewayError::new(ErrorKind::PtyIoError, message)),
    }
}

/// What came back when the answer of the shell to a command was awaited.
#[derive(Debug, PartialEq, Eq)]
pub enum RpcReply {
    /// This output.
    Output(String),
    /// Nothing within the time bound.
    TimedOut,
    /// The read failed, with its message.
    Failed(String),
}

/// The output of a reply, if it has one. Without output the caller falls
/// back on its sentinel.
pub fn rpc_output(reply: &RpcReply) -> (r: Option<&str>)
    ensures
        match reply {
            RpcReply::Output(out) => r matches Some(t) && t@ == out@,
            _ => r is None,
        },
{
    match reply {
        RpcReply::Output(out) => Some(out.as_str()),
        _ => None,
    }
}

/// The text of the error for a command whose answer did not come within
/// `bound_ms` milliseconds.
pub open spec fn timeout_text(bound_ms: nat) -> Seq<char> {
    "No answer from the shell within "@ + decimal(bound_ms) + " ms"@
}

/// The error that a reply stands for, if it stands for one: a time bound
/// of `bound_ms` milliseconds that was exceeded is an `RpcTimeout`, and a
/// read that failed is a `PtyIoError`.
pub fn rpc_fault(reply: &RpcReply, bound_ms: u64) -> (r: Option<GatewayError>)
    ensures
        match reply {
            RpcReply::Output(out) => r is None,
            RpcReply::TimedOut => r matches Some(e) && e.kind == ErrorKind::RpcTimeout
                && e.message@ == timeout_text(bound_ms as nat),
            RpcReply::Failed(m) => r matches Some(e) && e.kind == ErrorKind::PtyIoError
                && e.message@ == m@,
        },
{
    match reply {
        RpcReply::Output(_) => None,
        RpcReply::TimedOut => {
            let mut text: Vec<char> = Vec::new();
            push_str(&mut text, "No answer from the shell within ");
            push_decimal(&mut text, bound_ms);
            push_str(&mut text, " ms");
            assert(text@ =~= timeout_text(bound_ms as nat));
            Some(GatewayError::new(ErrorKind::RpcTimeout, string_of(&text)))
        },
        RpcReply::Failed(m) => Some(GatewayError::new(ErrorKind::PtyIoError, m.clone())),
    }
}

/// The error that the client is shown when the working directory cannot be
/// asked for: the kind of `cause`, and its text behind what failed.
pub fn cwd_failed(cause: &GatewayError) -> (e: GatewayError)
    ensures
        e.kind == cause.kind,
        e.message@ == "Failed to get current directory: "@ + cause.message@,
{
    GatewayError::new(
        cause.kind,
        concat2("Failed to get current directory: ", cause.message.as_str()),
    )
}

} // verus!
