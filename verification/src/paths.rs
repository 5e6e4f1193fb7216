//! Windows paths as text: joining, the AppData directory and the location of
//! the configuration file.
use vstd::prelude::*;

use crate::text::{concat, push_char, string_from_range};

verus! {

/// The directory under AppData that holds DevDock's files.
pub const APP_DIRECTORY_NAME: &'static str = "DevDock";

/// The configuration file's name.
pub const CONFIG_FILE_NAME: &'static str = "devdock.config.json";

/// A path separator on Windows.
pub open spec fn is_separator(c: char) -> bool {
    c == '\\' || c == '/'
}

/// An ASCII letter, as a drive letter must be.
pub open spec fn is_ascii_letter(c: char) -> bool {
    ('a' <= c && c <= 'z') || ('A' <= c && c <= 'Z')
}

/// A bare drive such as `C:`, which a joined name follows directly.
pub open spec fn is_bare_drive(p: Seq<char>) -> bool {
    p.len() == 2 && p[1] == ':' && is_ascii_letter(p[0])
}

/// What ends a component: `\` alone inside a verbatim (`\\?\`) path, `\` or
/// `/` elsewhere.
pub open spec fn ends_component(c: char, verbatim: bool) -> bool {
    if verbatim {
        c == '\\'
    } else {
        is_separator(c)
    }
}

/// The length of the first component of `s`, up to its first separator.
pub open spec fn component_len(s: Seq<char>, verbatim: bool) -> nat
    decreases s.len(),
{
    if s.len() == 0 || ends_component(s[0], verbatim) {
        0
    } else {
        1 + component_len(s.skip(1), verbatim)
    }
}

/// The length of a `server\share` pair at the start of `s`: the first
/// component, then, when a separator and a non-empty second component
/// follow, the two of them.
pub open spec fn pair_len(s: Seq<char>, verbatim: bool) -> nat {
    let a = component_len(s, verbatim);
    let b: nat = if a < s.len() {
        component_len(s.skip((a + 1) as int), verbatim)
    } else {
        0
    };
    if b > 0 {
        a + 1 + b
    } else {
        a
    }
}

/// The path starts with exactly `\\?\`: a verbatim prefix.
pub open spec fn is_verbatim(p: Seq<char>) -> bool {
    p.len() >= 4 && p[0] == '\\' && p[1] == '\\' && p[2] == '?' && p[3] == '\\'
}

/// The length of the Windows prefix of `p`, 0 where it has none:
/// `\\?\UNC\server\share`, `\\?\C:`, `\\?\name`, `\\.\device`,
/// `\\server\share` (both parts non-empty) or `C:`. Outside a verbatim
/// prefix `/` counts as `\`.
pub open spec fn prefix_len(p: Seq<char>) -> nat {
    if is_verbatim(p) {
        let r = p.skip(4);
        if r.len() >= 4 && r[0] == 'U' && r[1] == 'N' && r[2] == 'C' && is_separator(r[3]) {
            8 + pair_len(r.skip(4), true)
        } else if r.len() >= 2 && is_ascii_letter(r[0]) && r[1] == ':' && (r.len() == 2 || r[2]
            == '\\') {
            6
        } else {
            4 + component_len(r, true)
        }
    } else if p.len() >= 2 && is_separator(p[0]) && is_separator(p[1]) {
        if p.len() >= 4 && p[2] == '.' && is_separator(p[3]) {
            4 + component_len(p.skip(4), false)
        } else {
            let r = p.skip(2);
            let a = component_len(r, false);
            if a > 0 && pair_len(r, false) > a {
                2 + pair_len(r, false)
            } else {
                0
            }
        }
    } else if p.len() >= 2 && is_ascii_letter(p[0]) && p[1] == ':' {
        2
    } else {
        0
    }
}

/// An ordinary component, neither `.` nor `..`.
pub open spec fn is_normal_item(t: Seq<char>) -> bool {
    t != "."@ && t != ".."@
}

/// `items` after the component `piece`: an empty one is dropped; inside a
/// verbatim path any other is kept; elsewhere `.` is dropped and `..`
/// removes a preceding ordinary component.
pub open spec fn settle(items: Seq<Seq<char>>, piece: Seq<char>, verbatim: bool) -> Seq<
    Seq<char>,
> {
    if piece.len() == 0 {
        items
    } else if verbatim {
        items.push(piece)
    } else if piece == "."@ {
        items
    } else if piece == ".."@ {
        if items.len() > 0 && is_normal_item(items.last()) {
            items.drop_last()
        } else {
            items
        }
    } else {
        items.push(piece)
    }
}

/// Reading `s` after `items`: the components settled so far and the one
/// still open.
pub open spec fn scan(items: Seq<Seq<char>>, s: Seq<char>, verbatim: bool) -> (
    Seq<Seq<char>>,
    Seq<char>,
)
    decreases s.len(),
{
    if s.len() == 0 {
        (items, Seq::empty())
    } else {
        let (done, cur) = scan(items, s.drop_last(), verbatim);
        if ends_component(s.last(), verbatim) {
            (settle(done, cur, verbatim), Seq::empty())
        } else {
            (done, cur.push(s.last()))
        }
    }
}

/// `items` followed by the components of `s`.
pub open spec fn add_components(items: Seq<Seq<char>>, s: Seq<char>, verbatim: bool) -> Seq<
    Seq<char>,
> {
    let (done, cur) = scan(items, s, verbatim);
    settle(done, cur, verbatim)
}

/// The components separated by `\`.
pub open spec fn joined_items(items: Seq<Seq<char>>) -> Seq<char>
    decreases items.len(),
{
    if items.len() == 0 {
        Seq::empty()
    } else if items.len() == 1 {
        items[0]
    } else {
        joined_items(items.drop_last()) + seq!['\\'] + items.last()
    }
}

/// A verbatim path written from its prefix, root and components.
pub open spec fn rebuilt(prefix: Seq<char>, root: bool, items: Seq<Seq<char>>) -> Seq<char> {
    if root || items.len() > 0 {
        prefix + seq!['\\'] + joined_items(items)
    } else {
        prefix
    }
}

/// Joining a relative `name` onto a verbatim `base`: the components are
/// collected, `.` and `..` of the name resolved, and the path written again
/// with `\`.
pub open spec fn verbatim_join(base: Seq<char>, name: Seq<char>) -> Seq<char> {
    let pl = prefix_len(base) as int;
    let rest = base.skip(pl);
    let base_root = rest.len() > 0 && is_separator(rest[0]);
    let base_items = add_components(
        Seq::empty(),
        if base_root {
            rest.skip(1)
        } else {
            rest
        },
        true,
    );
    let name_root = is_separator(name[0]);
    let items = if name_root {
        add_components(Seq::empty(), name.skip(1), false)
    } else {
        add_components(base_items, name, false)
    };
    rebuilt(base.take(pl), base_root || name_root, items)
}

/// `PathBuf::join` on Windows: a name with a prefix replaces `base`; onto a
/// verbatim `base` the components are rebuilt; a name with a root keeps only
/// the prefix of `base`; otherwise a `\` goes between the two unless `base`
/// is empty, ends in a separator or is a bare drive.
pub open spec fn path_join(base: Seq<char>, name: Seq<char>) -> Seq<char> {
    if prefix_len(name) > 0 {
        name
    } else if is_verbatim(base) && name.len() > 0 {
        verbatim_join(base, name)
    } else if name.len() > 0 && is_separator(name[0]) {
        base.take(prefix_len(base) as int) + name
    } else if base.len() == 0 || is_separator(base.last()) || is_bare_drive(base) {
        base + name
    } else {
        base + seq!['\\'] + name
    }
}

proof fn lemma_component_len(s: Seq<char>, j: int, i: int, verbatim: bool)
    requires
        0 <= j <= i <= s.len(),
        forall|k: int| j <= k < i ==> !ends_component(#[trigger] s[k], verbatim),
        i == s.len() || ends_component(s[i], verbatim),
    ensures
        component_len(s.skip(j), verbatim) == i - j,
    decreases i - j,
{
    if i > j {
        assert(s.skip(j).skip(1) =~= s.skip(j + 1));
        lemma_component_len(s, j + 1, i, verbatim);
    }
}

fn ends_component_exec(c: char, verbatim: bool) -> (r: bool)
    ensures
        r == ends_component(c, verbatim),
{
    if verbatim {
        c == '\\'
    } else {
        c == '\\' || c == '/'
    }
}

/// Where the component that starts at `start` ends.
fn component_end(p: &Vec<char>, start: usize, verbatim: bool) -> (r: usize)
    requires
        start <= p.len(),
    ensures
        start <= r <= p.len(),
        r - start == component_len(p@.skip(start as int), verbatim),
{
    let mut i = start;
    while i < p.len() && !ends_component_exec(p[i], verbatim)
        invariant
            start <= i <= p.len(),
            forall|k: int| start <= k < i ==> !ends_component(#[trigger] p@[k], verbatim),
        decreases p.len() - i,
    {
        i = i + 1;
    }
    proof {
        lemma_component_len(p@, start as int, i as int, verbatim);
    }
    i
}

/// Where the `server\share` pair that starts at `start` ends.
fn pair_end(p: &Vec<char>, start: usize, verbatim: bool) -> (r: usize)
    requires
        start <= p.len(),
    ensures
        start <= r <= p.len(),
        r - start == pair_len(p@.skip(start as int), verbatim),
{
    let a = component_end(p, start, verbatim);
    if a < p.len() {
        let b = component_end(p, a + 1, verbatim);
        assert(p@.skip(start as int).skip(a - start + 1) =~= p@.skip(a + 1));
        if b > a + 1 {
            b
        } else {
            a
        }
    } else {
        a
    }
}

fn is_separator_exec(c: char) -> (r: bool)
    ensures
        r == is_separator(c),
{
    c == '\\' || c == '/'
}

fn is_ascii_letter_exec(c: char) -> (r: bool)
    ensures
        r == is_ascii_letter(c),
{
    ('a' <= c && c <= 'z') || ('A' <= c && c <= 'Z')
}

fn is_verbatim_exec(p: &Vec<char>) -> (r: bool)
    ensures
        r == is_verbatim(p@),
{
    p.len() >= 4 && p[0] == '\\' && p[1] == '\\' && p[2] == '?' && p[3] == '\\'
}

/// The length of the Windows prefix of `p`.
fn prefix_len_of(p: &Vec<char>) -> (r: usize)
    ensures
        r == prefix_len(p@),
        r <= p.len(),
{
    let n = p.len();
    if is_verbatim_exec(p) {
        let ghost r = p@.skip(4);
        if n >= 8 && p[4] == 'U' && p[5] == 'N' && p[6] == 'C' && is_separator_exec(p[7]) {
            assert(r.skip(4) =~= p@.skip(8));
            pair_end(p, 8, true)
        } else if n >= 6 && is_ascii_letter_exec(p[4]) && p[5] == ':' && (n == 6 || p[6] == '\\') {
            6
        } else {
            component_end(p, 4, true)
        }
    } else if n >= 2 && is_separator_exec(p[0]) && is_separator_exec(p[1]) {
        if n >= 4 && p[2] == '.' && is_separator_exec(p[3]) {
            component_end(p, 4, false)
        } else {
            let a = component_end(p, 2, false);
            let e = pair_end(p, 2, false);
            if a > 2 && e > a {
                e
            } else {
                0
            }
        }
    } else if n >= 2 && is_ascii_letter_exec(p[0]) && p[1] == ':' {
        2
    } else {
        0
    }
}

/// The components of a string vector, as text.
pub open spec fn items_view(items: Seq<String>) -> Seq<Seq<char>> {
    items.map_values(|t: String| t@)
}

fn settle_exec(items: &mut Vec<String>, piece: String, verbatim: bool)
    ensures
        items_view(final(items)@) == settle(items_view(old(items)@), piece@, verbatim),
{
    let ghost before = items_view(items@);
    if crate::text::chars_of(piece.as_str()).len() == 0 {
        return;
    }
    if !verbatim && crate::text::text_eq(piece.as_str(), ".") {
        return;
    }
    if !verbatim && crate::text::text_eq(piece.as_str(), "..") {
        if items.len() > 0 {
            let last = items.len() - 1;
            let normal = !crate::text::text_eq(items[last].as_str(), ".")
                && !crate::text::text_eq(items[last].as_str(), "..");
            if normal {
                items.pop();
                assert(items_view(items@) =~= before.drop_last());
            }
        }
        return;
    }
    items.push(piece);
    assert(items_view(items@) =~= before.push(piece@));
}

/// Adds the components of `s[start..]` to `items`.
fn add_components_exec(items: &mut Vec<String>, s: &Vec<char>, start: usize, verbatim: bool)
    requires
        start <= s.len(),
    ensures
        items_view(final(items)@) == add_components(
            items_view(old(items)@),
            s@.skip(start as int),
            verbatim,
        ),
{
    let ghost init = items_view(items@);
    let mut cur = String::new();
    let mut i = start;
    assert(s@.subrange(start as int, start as int) =~= Seq::<char>::empty());
    while i < s.len()
        invariant
            start <= i <= s.len(),
            (items_view(items@), cur@) == scan(init, s@.subrange(start as int, i as int), verbatim),
        decreases s.len() - i,
    {
        let c = s[i];
        assert(s@.subrange(start as int, i + 1).drop_last() =~= s@.subrange(
            start as int,
            i as int,
        ));
        if ends_component_exec(c, verbatim) {
            let piece = cur;
            settle_exec(items, piece, verbatim);
            cur = String::new();
        } else {
            push_char(&mut cur, c);
        }
        i = i + 1;
    }
    assert(s@.subrange(start as int, s.len() as int) =~= s@.skip(start as int));
    settle_exec(items, cur, verbatim);
}

/// `prefix`, then, when there is a root or a component, `\` and the
/// components separated by `\`.
fn rebuild(prefix: String, root: bool, items: &Vec<String>) -> (r: String)
    ensures
        r@ == rebuilt(prefix@, root, items_view(items@)),
{
    if !root && items.len() == 0 {
        return prefix;
    }
    let ghost v = items_view(items@);
    let ghost p = prefix@;
    let mut r = prefix;
    push_char(&mut r, '\\');
    let mut i: usize = 0;
    assert(v.take(0) =~= Seq::<Seq<char>>::empty());
    while i < items.len()
        invariant
            v == items_view(items@),
            i <= items.len(),
            r@ == p + seq!['\\'] + joined_items(v.take(i as int)),
        decreases items.len() - i,
    {
        assert(v.take(i + 1).drop_last() =~= v.take(i as int));
        if i > 0 {
            push_char(&mut r, '\\');
        }
        r.append(items[i].as_str());
        i = i + 1;
        assert(r@ =~= p + seq!['\\'] + joined_items(v.take(i as int)));
    }
    assert(v.take(items.len() as int) =~= v);
    r
}

fn verbatim_join_exec(b: &Vec<char>, n: &Vec<char>) -> (r: String)
    requires
        is_verbatim(b@),
        n.len() > 0,
    ensures
        r@ == verbatim_join(b@, n@),
{
    let pl = prefix_len_of(b);
    let prefix = string_from_range(b, 0, pl);
    let base_root = pl < b.len() && is_separator_exec(b[pl]);
    let start = if base_root {
        pl + 1
    } else {
        pl
    };
    let ghost rest = b@.skip(pl as int);
    assert(b@.take(pl as int) =~= b@.subrange(0, pl as int));
    proof {
        if base_root {
            assert(rest.skip(1) =~= b@.skip(start as int));
        }
    }
    let mut items: Vec<String> = Vec::new();
    assert(items_view(items@) =~= Seq::<Seq<char>>::empty());
    add_components_exec(&mut items, b, start, true);
    let name_root = is_separator_exec(n[0]);
    if name_root {
        items = Vec::new();
        assert(items_view(items@) =~= Seq::<Seq<char>>::empty());
        add_components_exec(&mut items, n, 1, false);
    } else {
        assert(n@.skip(0) =~= n@);
        add_components_exec(&mut items, n, 0, false);
    }
    rebuild(prefix, base_root || name_root, &items)
}

/// Joins a file or directory name onto `base`, as `PathBuf::join` does on
/// Windows.
pub fn join(base: &str, name: &str) -> (r: String)
    ensures
        r@ == path_join(base@, name@),
{
    let b = crate::text::chars_of(base);
    let m = crate::text::chars_of(name);
    if prefix_len_of(&m) > 0 {
        return String::from_str(name);
    }
    if is_verbatim_exec(&b) && m.len() > 0 {
        return verbatim_join_exec(&b, &m);
    }
    if m.len() > 0 && is_separator_exec(m[0]) {
        let pl = prefix_len_of(&b);
        let mut r = string_from_range(&b, 0, pl);
        assert(b@.take(pl as int) =~= b@.subrange(0, pl as int));
        r.append(name);
        return r;
    }
    let n = b.len();
    let bare_drive = n == 2 && b[1] == ':' && is_ascii_letter_exec(b[0]);
    if n == 0 || is_separator_exec(b[n - 1]) || bare_drive {
        concat(base, name)
    } else {
        let mut r = String::from_str(base);
        push_char(&mut r, '\\');
        r.append(name);
        r
    }
}

/// `directories::BaseDirs`, the user's standard directories.
#[verifier::external_type_specification]
#[verifier::external_body]
pub struct ExBaseDirs(directories::BaseDirs);

/// `directories::BaseDirs::new`: the user's standard directories, or `None`
/// when no valid home directory can be found. What it finds depends on the
/// machine, so nothing is stated of it.
#[verifier::external_body]
fn base_dirs_new() -> (r: Option<directories::BaseDirs>) {
    directories::BaseDirs::new()
}

/// `directories::BaseDirs::config_dir`, as text: `{FOLDERID_RoamingAppData}`
/// on Windows. It depends on the machine, so nothing is stated of it. The
/// library holds paths as Unicode text, so a directory name that is not valid
/// Unicode comes back with U+FFFD in place of what is not.
#[verifier::external_body]
fn base_dirs_config_dir(dirs: &directories::BaseDirs) -> (r: String) {
    dirs.config_dir().to_string_lossy().into_owned()
}

/// The directory cannot be determined.
#[derive(Debug, Clone, Copy, PartialEq, Eq, Structural)]
pub enum PathError {
    AppDataUnavailable,
}

/// The roaming AppData directory of the current user. Both whether it is
/// found and what it reads depend on the machine, so nothing is stated of the
/// result; `config_dir_in` and `config_path_in` take it as an argument.
pub fn app_data_dir() -> (r: Result<String, PathError>) {
    match base_dirs_new() {
        Some(dirs) => Ok(base_dirs_config_dir(&dirs)),
        None => Err(PathError::AppDataUnavailable),
    }
}

/// DevDock's directory under the AppData directory `app_data`.
pub open spec fn config_dir_under(app_data: Seq<char>) -> Seq<char> {
    path_join(app_data, APP_DIRECTORY_NAME@)
}

/// The configuration file under the AppData directory `app_data`.
pub open spec fn config_path_under(app_data: Seq<char>) -> Seq<char> {
    path_join(config_dir_under(app_data), CONFIG_FILE_NAME@)
}

/// DevDock's directory under the AppData directory `app_data`.
pub fn config_dir_in(app_data: &str) -> (r: String)
    ensures
        r@ == config_dir_under(app_data@),
{
    join(app_data, APP_DIRECTORY_NAME)
}

/// The configuration file under the AppData directory `app_data`.
pub fn config_path_in(app_data: &str) -> (r: String)
    ensures
        r@ == config_path_under(app_data@),
{
    let dir = config_dir_in(app_data);
    join(dir.as_str(), CONFIG_FILE_NAME)
}

/// DevDock's directory under the current user's AppData directory.
pub fn config_dir() -> (r: Result<String, PathError>)
    ensures
        r matches Ok(d) ==> exists|a: Seq<char>| d@ == config_dir_under(a),
{
    match app_data_dir() {
        Ok(a) => Ok(config_dir_in(a.as_str())),
        Err(e) => Err(e),
    }
}

/// The configuration file of the current user.
pub fn config_path() -> (r: Result<String, PathError>)
    ensures
        r matches Ok(p) ==> exists|a: Seq<char>| p@ == config_path_under(a),
{
    match app_data_dir() {
        Ok(a) => Ok(config_path_in(a.as_str())),
        Err(e) => Err(e),
    }
}

/// The index of the last separator in `p[start..j]`, or `start - 1` where it
/// has none.
pub open spec fn last_separator(p: Seq<char>, start: int, j: int, verbatim: bool) -> int
    decreases j - start,
{
    if j <= start {
        start - 1
    } else if ends_component(p[j - 1], verbatim) {
        j - 1
    } else {
        last_separator(p, start, j - 1, verbatim)
    }
}

/// The last separator of `p[start..j]` lies before `j`, and no earlier than
/// `start - 1`.
pub proof fn lemma_last_separator_bounds(p: Seq<char>, start: int, j: int, verbatim: bool)
    requires
        start <= j,
    ensures
        start - 1 <= last_separator(p, start, j, verbatim) < j,
    decreases j - start,
{
    if j > start && !ends_component(p[j - 1], verbatim) {
        lemma_last_separator_bounds(p, start, j - 1, verbatim);
    }
}

proof fn lemma_last_separator(p: Seq<char>, start: int, j: int, k: int, verbatim: bool)
    requires
        start <= k <= j <= p.len(),
        forall|m: int| k <= m < j ==> !ends_component(#[trigger] p[m], verbatim),
        k == start || ends_component(p[k - 1], verbatim),
    ensures
        last_separator(p, start, j, verbatim) == k - 1,
    decreases j - k,
{
    if j > k {
        lemma_last_separator(p, start, j - 1, k, verbatim);
    }
}

/// Where `p[..j]` ends once its last component, and the separator before it,
/// are removed (never before `start`).
pub open spec fn before_last(p: Seq<char>, start: int, j: int, verbatim: bool) -> int {
    let k = last_separator(p, start, j, verbatim);
    if k >= start {
        k
    } else {
        start
    }
}

/// A piece between separators that names no component: an empty one, or `.`
/// outside a verbatim path.
pub open spec fn skipped_piece(piece: Seq<char>, verbatim: bool) -> bool {
    piece.len() == 0 || (!verbatim && piece == "."@)
}

/// Where `p[..j]` ends once the pieces at its end that name no component are
/// removed (never before `start`).
pub open spec fn trim_back(p: Seq<char>, start: int, j: int, verbatim: bool) -> int
    decreases j - start,
{
    if j <= start {
        j
    } else {
        let piece = p.subrange(last_separator(p, start, j, verbatim) + 1, j);
        if skipped_piece(piece, verbatim) {
            proof {
                lemma_last_separator_bounds(p, start, j, verbatim);
            }
            trim_back(p, start, before_last(p, start, j, verbatim), verbatim)
        } else {
            j
        }
    }
}

/// After the prefix of `p` comes a separator: a root.
pub open spec fn has_root(p: Seq<char>) -> bool {
    prefix_len(p) < p.len() && is_separator(p[prefix_len(p) as int])
}

/// `p` starts with a `.` component and has no prefix or root.
pub open spec fn leading_cur_dir(p: Seq<char>) -> bool {
    prefix_len(p) == 0 && !has_root(p) && p.len() >= 1 && p[0] == '.' && (p.len() == 1
        || is_separator(p[1]))
}

/// Where the components of `p` begin: after its prefix, its root and a
/// leading `.`.
pub open spec fn body_start(p: Seq<char>) -> int {
    prefix_len(p) + (if has_root(p) {
        1int
    } else {
        0int
    }) + (if leading_cur_dir(p) {
        1int
    } else {
        0int
    })
}

/// `Path::parent` on Windows: `p` without its last component and the
/// separators before it, where that component is a name, `.` or `..`; the
/// empty path for a lone leading `.`; none for a prefix, a root or an empty
/// path.
pub open spec fn path_parent(p: Seq<char>) -> Option<Seq<char>> {
    let v = is_verbatim(p);
    let start = body_start(p);
    let j = trim_back(p, start, p.len() as int, v);
    if j > start {
        Some(p.take(trim_back(p, start, before_last(p, start, j, v), v)))
    } else if leading_cur_dir(p) {
        Some(Seq::empty())
    } else {
        None
    }
}

/// Where the last component of `p[start..j]` begins.
fn piece_start_of(p: &Vec<char>, start: usize, j: usize, verbatim: bool) -> (r: usize)
    requires
        start <= j <= p.len(),
    ensures
        start <= r <= j,
        r == last_separator(p@, start as int, j as int, verbatim) + 1,
{
    let mut k = j;
    while k > start && !ends_component_exec(p[k - 1], verbatim)
        invariant
            start <= k <= j <= p.len(),
            forall|m: int| k <= m < j ==> !ends_component(#[trigger] p@[m], verbatim),
        decreases k - start,
    {
        k = k - 1;
    }
    proof {
        lemma_last_separator(p@, start as int, j as int, k as int, verbatim);
    }
    k
}

fn skipped_piece_exec(p: &Vec<char>, a: usize, b: usize, verbatim: bool) -> (r: bool)
    requires
        a <= b <= p.len(),
    ensures
        r == skipped_piece(p@.subrange(a as int, b as int), verbatim),
{
    proof {
        reveal_strlit(".");
    }
    if a == b {
        return true;
    }
    let dot = b == a + 1 && p[a] == '.';
    proof {
        let piece = p@.subrange(a as int, b as int);
        assert("."@.len() == 1 && "."@[0] == '.');
        if dot {
            assert(piece =~= "."@);
        }
        if piece == "."@ {
            assert(piece.len() == 1);
            assert(piece[0] == p@[a as int]);
        }
    }
    !verbatim && dot
}

fn trim_back_exec(p: &Vec<char>, start: usize, j: usize, verbatim: bool) -> (r: usize)
    requires
        start <= j <= p.len(),
    ensures
        start <= r <= j,
        r == trim_back(p@, start as int, j as int, verbatim),
{
    let mut k = j;
    while k > start
        invariant
            start <= k <= j <= p.len(),
            trim_back(p@, start as int, j as int, verbatim) == trim_back(
                p@,
                start as int,
                k as int,
                verbatim,
            ),
        decreases k - start,
    {
        let ps = piece_start_of(p, start, k, verbatim);
        if skipped_piece_exec(p, ps, k, verbatim) {
            proof {
                lemma_last_separator_bounds(p@, start as int, k as int, verbatim);
            }
            k = if ps > start {
                ps - 1
            } else {
                start
            };
        } else {
            return k;
        }
    }
    k
}

/// The parent of `path`, as `Path::parent` gives it on Windows.
pub(crate) fn parent_of(path: &str) -> (r: Option<String>)
    ensures
        match r {
            Some(p) => path_parent(path@) == Some(p@),
            None => path_parent(path@) is None,
        },
{
    let p = crate::text::chars_of(path);
    let n = p.len();
    let pl = prefix_len_of(&p);
    let v = is_verbatim_exec(&p);
    let root = pl < n && is_separator_exec(p[pl]);
    let cur = pl == 0 && !root && n >= 1 && p[0] == '.' && (n == 1 || is_separator_exec(p[1]));
    let start = pl + (if root {
        1
    } else {
        0
    }) + (if cur {
        1
    } else {
        0
    });
    let j = trim_back_exec(&p, start, n, v);
    if j > start {
        let ps = piece_start_of(&p, start, j, v);
        let b = if ps > start {
            ps - 1
        } else {
            start
        };
        let e = trim_back_exec(&p, start, b, v);
        let r = string_from_range(&p, 0, e);
        assert(p@.take(e as int) =~= p@.subrange(0, e as int));
        Some(r)
    } else if cur {
        let r = String::new();
        assert(r@ =~= Seq::<char>::empty());
        Some(r)
    } else {
        None
    }
}

/// A path rooted at a drive, such as `C:\Users\me\AppData\Roaming`.
pub open spec fn is_drive_rooted(p: Seq<char>) -> bool {
    p.len() >= 3 && is_ascii_letter(p[0]) && p[1] == ':' && is_separator(p[2])
}

/// Joining a name without prefix or root onto a drive-rooted path adds a `\`
/// unless the path ends in a separator.
proof fn lemma_join_onto_drive_rooted(d: Seq<char>, n: Seq<char>)
    requires
        is_drive_rooted(d),
        n.len() > 0,
        prefix_len(n) == 0,
        !is_separator(n[0]),
    ensures
        path_join(d, n) == if is_separator(d.last()) {
            d + n
        } else {
            d + seq!['\\'] + n
        },
{
}

/// The last component of drive-rooted `p` is the name `p[s + 1..]` after the
/// separator at `s`: that is what `trim_back` keeps, and what comes before it
/// is `p[..s]`.
proof fn lemma_last_name(p: Seq<char>, s: int)
    requires
        is_drive_rooted(p),
        prefix_len(p) == 2,
        2 <= s < p.len() - 1,
        is_separator(p[s]),
        forall|m: int| s < m < p.len() ==> !is_separator(#[trigger] p[m]),
        p.subrange(s + 1, p.len() as int) != "."@,
    ensures
        trim_back(p, 3, p.len() as int, false) == p.len(),
        before_last(p, 3, p.len() as int, false) == if s >= 3 {
            s
        } else {
            3
        },
{
    lemma_last_separator(p, 3, p.len() as int, s + 1, false);
}

/// The configuration file lies in the configuration directory: for an
/// AppData directory rooted at a drive, the parent of the configuration
/// file's path is DevDock's directory.
pub proof fn law_config_file_in_config_dir(app_data: Seq<char>)
    requires
        is_drive_rooted(app_data),
    ensures
        path_parent(config_path_under(app_data)) == Some(config_dir_under(app_data)),
{
    reveal_strlit("DevDock");
    reveal_strlit("devdock.config.json");
    reveal_strlit(".");
    let n1 = APP_DIRECTORY_NAME@;
    let n2 = CONFIG_FILE_NAME@;
    assert(n1.len() == 7 && n2.len() == 19);
    assert(prefix_len(n1) == 0);
    assert(prefix_len(n2) == 0);
    lemma_join_onto_drive_rooted(app_data, n1);
    let d = config_dir_under(app_data);
    let sep: int = if is_separator(app_data.last()) {
        app_data.len() - 1
    } else {
        app_data.len() as int
    };
    assert(d.len() == sep + 8);
    assert(is_separator(d[sep]));
    assert(d.subrange(sep + 1, d.len() as int) =~= n1);
    assert(d[0] == app_data[0] && d[1] == app_data[1] && d[2] == app_data[2]);
    assert(is_drive_rooted(d));
    assert(d.last() == 'k');
    lemma_join_onto_drive_rooted(d, n2);
    let p = config_path_under(app_data);
    assert(p =~= d + seq!['\\'] + n2);
    assert(p[0] == d[0] && p[1] == d[1] && p[2] == d[2]);
    assert(prefix_len(p) == 2);
    assert(has_root(p));
    assert(!leading_cur_dir(p));
    assert(body_start(p) == 3);
    assert(!is_verbatim(p));
    assert forall|m: int| d.len() < m < p.len() implies !is_separator(#[trigger] p[m]) by {
        assert(p[m] == n2[m - d.len() - 1]);
    }
    assert(p.subrange(d.len() + 1int, p.len() as int) =~= n2);
    lemma_last_name(p, d.len() as int);
    assert(before_last(p, 3, p.len() as int, false) == d.len());
    assert(d.take(d.len() as int) =~= d);
    let q = p.take(d.len() as int);
    assert(q =~= d);
    assert forall|m: int| sep + 1 <= m < d.len() implies !is_separator(#[trigger] p[m]) by {
        assert(p[m] == n1[m - sep - 1]);
    }
    assert(p[sep] == d[sep]);
    lemma_last_separator(p, 3, d.len() as int, sep + 1, false);
    assert(p.subrange(sep + 1, d.len() as int) =~= n1);
    assert(n1 != "."@) by {
        assert(n1.len() != "."@.len());
    }
    assert(trim_back(p, 3, d.len() as int, false) == d.len());
}

} // verus!
