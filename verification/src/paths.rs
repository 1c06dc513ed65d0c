//! Paths, as text.
//!
//! On Windows a path says where it starts: at a drive, a share or a device, or
//! that it is to be taken as it stands. Everywhere else there is one root.
use vstd::prelude::*;
use vstd::string::*;
use crate::platform::Platform;
use crate::text::{
    chars_of, cut_all, cut_once, find, lemma_cut, lemma_find, piece, split, split_once, string_of,
    views,
};

verus! {

/// Whether `c` is a letter that can name a drive.
pub open spec fn is_drive_letter(c: char) -> bool {
    'a' <= c <= 'z' || 'A' <= c <= 'Z'
}

/// Whether `name` starts with a drive, such as `C:`.
pub open spec fn has_drive(name: Seq<char>) -> bool {
    name.len() >= 2 && is_drive_letter(name[0]) && name[1] == ':'
}

/// Whether two letters name the same drive: small and capital ones do.
pub open spec fn same_drive(left: char, right: char) -> bool {
    left == right || (is_drive_letter(left) && is_drive_letter(right) && (left as int - right as int
        == 32 || right as int - left as int == 32))
}

/// A path with forward slashes.
pub open spec fn slashed(path: Seq<char>, platform: Platform) -> Seq<char> {
    if platform == Platform::Windows {
        path.map_values(
            |c: char|
                if c == '\\' {
                    '/'
                } else {
                    c
                },
        )
    } else {
        path
    }
}

/// The forms in which a path can say where it starts. Only Windows has any but
/// the first.
#[derive(Clone, Copy, Debug, PartialEq, Eq, Structural)]
pub enum PrefixForm {
    /// Nothing is said.
    Missing,
    /// A drive, such as `C:`.
    Disk,
    /// A server and a share on it, such as `\\server\share`.
    Share,
    /// A device, such as `\\.\COM42`.
    Device,
    /// A name that is taken as it stands, such as `\\?\name`.
    Verbatim,
    /// A drive that is taken as it stands, such as `\\?\C:`.
    VerbatimDisk,
    /// A share that is taken as it stands, such as `\\?\UNC\server\share`.
    VerbatimShare,
}

impl PrefixForm {
    /// Whether what follows is taken as it stands: only backslashes separate, and
    /// a single dot is a name.
    pub open spec fn is_verbatim(self) -> bool {
        self is Verbatim || self is VerbatimDisk || self is VerbatimShare
    }

    /// Whether what follows is taken as it stands.
    fn takes_verbatim(self) -> (verbatim: bool)
        ensures
            verbatim == self.is_verbatim(),
    {
        matches!(self, PrefixForm::Verbatim | PrefixForm::VerbatimDisk | PrefixForm::VerbatimShare)
    }
}

/// A path taken apart.
pub ghost struct PathView {
    pub form: PrefixForm,
    /// The names that say where the path starts.
    pub names: Seq<Seq<char>>,
    /// What follows them.
    pub rest: Seq<char>,
}

/// What comes before the first `separator`, and what comes after it.
pub open spec fn first_piece(text: Seq<char>, separator: char) -> (Seq<char>, Seq<char>) {
    match split_once(text, separator) {
        Some((head, tail)) => (head, tail),
        None => (text, Seq::empty()),
    }
}

/// A path in `form` whose start is said by the first two pieces of `text`.
pub open spec fn at_share(form: PrefixForm, text: Seq<char>, separator: char) -> PathView {
    let (server, tail) = first_piece(text, separator);
    let (share, rest) = first_piece(tail, separator);
    PathView { form, names: seq![server, share], rest }
}

/// A path in `form` whose start is said by the first piece of `text`.
pub open spec fn at_name(form: PrefixForm, text: Seq<char>, separator: char) -> PathView {
    let (name, rest) = first_piece(text, separator);
    PathView { form, names: seq![name], rest }
}

/// A path in `form` whose start is said by the drive that `text` starts with.
pub open spec fn at_drive(form: PrefixForm, text: Seq<char>) -> PathView {
    PathView { form, names: seq![text.take(2)], rest: text.skip(2) }
}

/// A path that says nothing of where it starts.
pub open spec fn bare(text: Seq<char>) -> PathView {
    PathView { form: PrefixForm::Missing, names: Seq::empty(), rest: text }
}

/// Whether a path is to be taken as it stands, which only `\\?\` says.
pub open spec fn says_verbatim(path: Seq<char>) -> bool {
    path.len() >= 4 && path.take(4) == seq!['\\', '\\', '?', '\\']
}

/// What is said after `\\?\`.
pub open spec fn verbatim_path(text: Seq<char>) -> PathView {
    if text.len() >= 4 && text.take(4) == seq!['U', 'N', 'C', '\\'] {
        at_share(PrefixForm::VerbatimShare, text.skip(4), '\\')
    } else if has_drive(text) && (text.len() == 2 || text[2] == '\\' || text[2] == '/') {
        at_drive(PrefixForm::VerbatimDisk, text)
    } else {
        at_name(PrefixForm::Verbatim, text, '\\')
    }
}

/// A path on Windows, taken apart. Both slashes separate, but for a path that is
/// taken as it stands.
pub open spec fn windows_path(path: Seq<char>) -> PathView {
    let plain = slashed(path, Platform::Windows);
    if says_verbatim(path) {
        verbatim_path(path.skip(4))
    } else if plain.len() >= 2 && plain[0] == '/' && plain[1] == '/' {
        if plain.len() >= 4 && plain[2] == '.' && plain[3] == '/' {
            at_name(PrefixForm::Device, plain.skip(4), '/')
        } else {
            let shared = at_share(PrefixForm::Share, plain.skip(2), '/');
            if shared.names[0].len() > 0 && shared.names[1].len() > 0 {
                shared
            } else {
                bare(plain)
            }
        }
    } else if has_drive(plain) {
        at_drive(PrefixForm::Disk, plain)
    } else {
        bare(plain)
    }
}

/// A path taken apart.
pub open spec fn parsed(path: Seq<char>, platform: Platform) -> PathView {
    if platform == Platform::Windows {
        windows_path(path)
    } else {
        bare(path)
    }
}

impl PathView {
    /// What separates the components.
    pub open spec fn separator(self) -> char {
        if self.form.is_verbatim() {
            '\\'
        } else {
            '/'
        }
    }

    /// Whether a piece between separators is a component. Nothing is none, and a
    /// single dot is none unless it is taken as it stands.
    pub open spec fn counts(self, piece: Seq<char>) -> bool {
        piece.len() > 0 && (self.form.is_verbatim() || piece != seq!['.'])
    }

    /// The components that follow where the path starts. `..` is one of them.
    pub open spec fn components(self) -> Seq<Seq<char>> {
        split(self.rest, self.separator()).filter(|piece: Seq<char>| self.counts(piece))
    }
}

/// The components of a path, after what says where it starts.
pub open spec fn components(path: Seq<char>, platform: Platform) -> Seq<Seq<char>> {
    parsed(path, platform).components()
}

/// Whether a path starts at a root. On Windows it has to say which, and a drive
/// alone has none.
pub open spec fn is_absolute(path: Seq<char>, platform: Platform) -> bool {
    let view = parsed(path, platform);
    match view.form {
        PrefixForm::Missing => platform != Platform::Windows && view.rest.len() > 0
            && view.rest[0] == '/',
        PrefixForm::Disk => view.rest.len() > 0 && view.rest[0] == '/',
        _ => true,
    }
}

/// Whether a component is a name rather than a dot or two.
pub open spec fn is_name(piece: Seq<char>) -> bool {
    piece != seq!['.'] && piece != seq!['.', '.']
}

/// The final component of a path, where it is a name.
pub open spec fn final_name(path: Seq<char>, platform: Platform) -> Option<Seq<char>> {
    let parts = components(path, platform);
    if parts.len() > 0 && is_name(parts.last()) {
        Some(parts.last())
    } else {
        None
    }
}

/// Components with every `..` carried out: it takes back the component before
/// it, and there is nothing above the root.
pub open spec fn resolved(parts: Seq<Seq<char>>) -> Seq<Seq<char>>
    decreases parts.len(),
{
    if parts.len() == 0 {
        parts
    } else {
        let before = resolved(parts.drop_last());
        if parts.last() != seq!['.', '.'] {
            before.push(parts.last())
        } else if before.len() == 0 {
            before
        } else {
            before.drop_last()
        }
    }
}

/// Whether two paths start at the same root.
pub open spec fn same_start(left: PathView, right: PathView) -> bool {
    &&& left.form == right.form
    &&& if left.form is Disk || left.form is VerbatimDisk {
        same_drive(left.names[0][0], right.names[0][0])
    } else {
        left.names == right.names
    }
}

/// Whether `whole` starts with `start`.
pub open spec fn leads_with(whole: Seq<Seq<char>>, start: Seq<Seq<char>>) -> bool {
    start.len() <= whole.len() && whole.take(start.len() as int) == start
}

/// Whether a path is `root` or lies below it, once every `..` in both is carried
/// out.
pub open spec fn lies_inside(path: Seq<char>, root: Seq<char>, platform: Platform) -> bool {
    same_start(parsed(path, platform), parsed(root, platform)) && leads_with(
        resolved(components(path, platform)),
        resolved(components(root, platform)),
    )
}

/// Whether `c` is a letter that can name a drive.
pub fn is_letter(c: char) -> (letter: bool)
    ensures
        letter == is_drive_letter(c),
{
    ('a' <= c && c <= 'z') || ('A' <= c && c <= 'Z')
}

/// Whether two letters name the same drive.
fn is_same_drive(left: char, right: char) -> (same: bool)
    ensures
        same == same_drive(left, right),
{
    if left == right {
        return true;
    }
    if !is_letter(left) || !is_letter(right) {
        return false;
    }
    let a: u32 = left as u32;
    let b: u32 = right as u32;
    a == b + 32 || b == a + 32
}

/// A path with forward slashes.
fn with_slashes(path: &str, platform: Platform) -> (chars: Vec<char>)
    ensures
        chars@ == slashed(path@, platform),
{
    let whole: Vec<char> = chars_of(path);
    if platform != Platform::Windows {
        return whole;
    }
    let mut chars: Vec<char> = Vec::new();
    let mut i: usize = 0;
    while i < whole.len()
        invariant
            i <= whole.len(),
            whole@ == path@,
            platform == Platform::Windows,
            chars@ == slashed(path@.take(i as int), platform),
        decreases whole.len() - i,
    {
        let c: char = whole[i];
        chars.push(
            if c == '\\' {
                '/'
            } else {
                c
            },
        );
        assert(path@.take(i + 1) == path@.take(i as int).push(c));
        assert(chars@ =~= slashed(path@.take(i + 1), platform));
        i += 1;
    }
    assert(path@.take(i as int) == path@);
    chars
}

/// A path taken apart.
pub struct ParsedPath {
    pub form: PrefixForm,
    pub names: Vec<Vec<char>>,
    pub rest: Vec<char>,
}

impl View for ParsedPath {
    type V = PathView;

    open spec fn view(&self) -> PathView {
        PathView { form: self.form, names: views(self.names@), rest: self.rest@ }
    }
}

/// What comes before the first `separator`, and what comes after it.
fn cut_first(text: &Vec<char>, separator: char) -> (cut: (Vec<char>, Vec<char>))
    ensures
        (cut.0@, cut.1@) == first_piece(text@, separator),
{
    match cut_once(text, separator) {
        Some((head, tail)) => (head, tail),
        None => {
            let rest: Vec<char> = Vec::new();
            assert(rest@ =~= Seq::empty());
            (copied(text), rest)
        },
    }
}

/// The text from `from` on.
fn text_from(text: &Vec<char>, from: usize) -> (tail: Vec<char>)
    requires
        from <= text.len(),
    ensures
        tail@ == text@.skip(from as int),
{
    assert(text@.skip(from as int) =~= text@.subrange(from as int, text@.len() as int));
    piece(text, from, text.len())
}

/// A path whose start is said by the first two pieces of `text`.
fn take_share(form: PrefixForm, text: &Vec<char>, separator: char) -> (path: ParsedPath)
    ensures
        path@ == at_share(form, text@, separator),
{
    let (server, tail) = cut_first(text, separator);
    let (share, rest) = cut_first(&tail, separator);
    let mut names: Vec<Vec<char>> = Vec::new();
    names.push(server);
    names.push(share);
    assert(views(names@) =~= seq![server@, share@]);
    ParsedPath { form, names, rest }
}

/// A path whose start is said by the first piece of `text`.
fn take_name(form: PrefixForm, text: &Vec<char>, separator: char) -> (path: ParsedPath)
    ensures
        path@ == at_name(form, text@, separator),
{
    let (name, rest) = cut_first(text, separator);
    let mut names: Vec<Vec<char>> = Vec::new();
    names.push(name);
    assert(views(names@) =~= seq![name@]);
    ParsedPath { form, names, rest }
}

/// A path whose start is said by the drive that `text` starts with.
fn take_drive(form: PrefixForm, text: &Vec<char>) -> (path: ParsedPath)
    requires
        text.len() >= 2,
    ensures
        path@ == at_drive(form, text@),
{
    let drive: Vec<char> = piece(text, 0, 2);
    assert(drive@ =~= text@.take(2));
    let mut names: Vec<Vec<char>> = Vec::new();
    names.push(drive);
    assert(views(names@) =~= seq![drive@]);
    ParsedPath { form, names, rest: text_from(text, 2) }
}

/// A path that says nothing of where it starts.
fn take_bare(text: Vec<char>) -> (path: ParsedPath)
    ensures
        path@ == bare(text@),
{
    let names: Vec<Vec<char>> = Vec::new();
    assert(views(names@) =~= Seq::empty());
    ParsedPath { form: PrefixForm::Missing, names, rest: text }
}

/// Whether a text starts with a drive.
fn starts_with_drive(text: &Vec<char>) -> (drive: bool)
    ensures
        drive == has_drive(text@),
{
    text.len() >= 2 && is_letter(text[0]) && text[1] == ':'
}

/// What is said after `\\?\`.
fn parse_verbatim(text: &Vec<char>) -> (path: ParsedPath)
    ensures
        path@ == verbatim_path(text@),
{
    let share = text.len() >= 4 && text[0] == 'U' && text[1] == 'N' && text[2] == 'C' && text[3]
        == '\\';
    proof {
        if text@.len() >= 4 {
            let head = text@.take(4);
            assert(head[0] == text@[0] && head[1] == text@[1] && head[2] == text@[2] && head[3]
                == text@[3]);
            if share {
                assert(head =~= seq!['U', 'N', 'C', '\\']);
            }
        }
    }
    if share {
        take_share(PrefixForm::VerbatimShare, &text_from(text, 4), '\\')
    } else if starts_with_drive(text) && (text.len() == 2 || text[2] == '\\' || text[2] == '/') {
        take_drive(PrefixForm::VerbatimDisk, text)
    } else {
        take_name(PrefixForm::Verbatim, text, '\\')
    }
}

/// A path on Windows, taken apart.
fn parse_windows(path: &str) -> (parts: ParsedPath)
    ensures
        parts@ == windows_path(path@),
{
    let chars: Vec<char> = chars_of(path);
    let plain: Vec<char> = with_slashes(path, Platform::Windows);
    let verbatim = chars.len() >= 4 && chars[0] == '\\' && chars[1] == '\\' && chars[2] == '?'
        && chars[3] == '\\';
    proof {
        if path@.len() >= 4 {
            let head = path@.take(4);
            assert(head[0] == path@[0] && head[1] == path@[1] && head[2] == path@[2] && head[3]
                == path@[3]);
            if verbatim {
                assert(head =~= seq!['\\', '\\', '?', '\\']);
            }
        }
    }
    if verbatim {
        return parse_verbatim(&text_from(&chars, 4));
    }
    if plain.len() >= 2 && plain[0] == '/' && plain[1] == '/' {
        if plain.len() >= 4 && plain[2] == '.' && plain[3] == '/' {
            return take_name(PrefixForm::Device, &text_from(&plain, 4), '/');
        }
        let shared: ParsedPath = take_share(PrefixForm::Share, &text_from(&plain, 2), '/');
        assert(shared.names@.len() == shared@.names.len());
        assert(shared.names@[0]@ == shared@.names[0] && shared.names@[1]@ == shared@.names[1]);
        if shared.names[0].len() > 0 && shared.names[1].len() > 0 {
            return shared;
        }
        return take_bare(plain);
    }
    if starts_with_drive(&plain) {
        take_drive(PrefixForm::Disk, &plain)
    } else {
        take_bare(plain)
    }
}

/// A path taken apart.
pub fn parse(path: &str, platform: Platform) -> (parts: ParsedPath)
    ensures
        parts@ == parsed(path@, platform),
{
    if platform == Platform::Windows {
        parse_windows(path)
    } else {
        take_bare(chars_of(path))
    }
}

/// Whether a path starts at a root.
pub fn starts_at_root(path: &str, platform: Platform) -> (absolute: bool)
    ensures
        absolute == is_absolute(path@, platform),
{
    let parts: ParsedPath = parse(path, platform);
    let rooted = parts.rest.len() > 0 && parts.rest[0] == '/';
    match parts.form {
        PrefixForm::Missing => platform != Platform::Windows && rooted,
        PrefixForm::Disk => rooted,
        _ => true,
    }
}

/// A copy of one component.
fn copied(part: &Vec<char>) -> (copy: Vec<char>)
    ensures
        copy@ == part@,
{
    chars_of(string_of(part).as_str())
}

/// The components of a path, after what says where it starts.
pub fn components_of(path: &ParsedPath) -> (parts: Vec<Vec<char>>)
    ensures
        views(parts@) == path@.components(),
{
    let verbatim = path.form.takes_verbatim();
    let pieces: Vec<Vec<char>> = cut_all(
        &path.rest,
        if verbatim {
            '\\'
        } else {
            '/'
        },
    );
    let ghost counts = |piece: Seq<char>| path@.counts(piece);
    let mut parts: Vec<Vec<char>> = Vec::new();
    let mut i: usize = 0;
    let ghost all = views(pieces@);
    assert(views(parts@) =~= all.take(0).filter(counts)) by {
        reveal(Seq::filter);
    }
    while i < pieces.len()
        invariant
            i <= pieces.len(),
            verbatim == path.form.is_verbatim(),
            all == views(pieces@),
            counts == (|piece: Seq<char>| path@.counts(piece)),
            views(parts@) == all.take(i as int).filter(counts),
        decreases pieces.len() - i,
    {
        let part: &Vec<char> = &pieces[i];
        let ghost before = parts@;
        proof {
            reveal(Seq::filter);
            assert(all[i as int] == pieces@[i as int]@);
            assert(all.take(i + 1).drop_last() == all.take(i as int));
            assert(all.take(i + 1).last() == part@);
        }
        if part.len() > 0 && (verbatim || !is_dot(part)) {
            let copy: Vec<char> = copied(part);
            let ghost text = copy@;
            parts.push(copy);
            assert(views(parts@) =~= views(before).push(text));
        }
        i += 1;
    }
    assert(all.take(i as int) == all);
    parts
}

/// Whether a piece is a single dot.
fn is_dot(part: &Vec<char>) -> (dot: bool)
    ensures
        dot == (part@ == seq!['.']),
{
    let dot = part.len() == 1 && part[0] == '.';
    assert(dot <==> part@ == seq!['.']) by {
        if dot {
            assert(part@ =~= seq!['.']);
        }
    }
    dot
}

/// Whether a component leads upward.
fn leads_up(part: &Vec<char>) -> (up: bool)
    ensures
        up == (part@ == seq!['.', '.']),
{
    let up = part.len() == 2 && part[0] == '.' && part[1] == '.';
    assert(up <==> part@ == seq!['.', '.']) by {
        if up {
            assert(part@ =~= seq!['.', '.']);
        }
    }
    up
}

/// Whether two components are the same.
fn same_component(left: &Vec<char>, right: &Vec<char>) -> (same: bool)
    ensures
        same == (left@ == right@),
{
    if left.len() != right.len() {
        return false;
    }
    let mut i: usize = 0;
    while i < left.len()
        invariant
            i <= left.len(),
            left.len() == right.len(),
            forall|k: int| 0 <= k < i ==> left@[k] == right@[k],
        decreases left.len() - i,
    {
        if left[i] != right[i] {
            assert(left@[i as int] != right@[i as int]);
            return false;
        }
        i += 1;
    }
    assert(left@ =~= right@);
    true
}

/// The final component of a path, where it is a name.
pub fn file_name_of(path: &str, platform: Platform) -> (name: Option<String>)
    ensures
        match name {
            Some(name) => final_name(path@, platform) == Some(name@),
            None => final_name(path@, platform) is None,
        },
{
    let parts: Vec<Vec<char>> = components_of(&parse(path, platform));
    let n: usize = parts.len();
    assert(components(path@, platform).len() == n);
    if n == 0 {
        return None;
    }
    let last: &Vec<char> = &parts[n - 1];
    assert(components(path@, platform).last() == last@);
    if is_dot(last) || leads_up(last) {
        None
    } else {
        Some(string_of(last))
    }
}

/// Components with every `..` carried out.
fn resolve(parts: &Vec<Vec<char>>) -> (kept: Vec<Vec<char>>)
    ensures
        views(kept@) == resolved(views(parts@)),
{
    let ghost all = views(parts@);
    let mut kept: Vec<Vec<char>> = Vec::new();
    let mut i: usize = 0;
    assert(all.take(0) =~= Seq::<Seq<char>>::empty());
    assert(views(kept@) =~= resolved(all.take(0)));
    while i < parts.len()
        invariant
            i <= parts.len(),
            all == views(parts@),
            views(kept@) == resolved(all.take(i as int)),
        decreases parts.len() - i,
    {
        let part: &Vec<char> = &parts[i];
        let ghost before = kept@;
        let ghost next = all.take(i + 1);
        proof {
            assert(all[i as int] == part@);
            assert(next.drop_last() =~= all.take(i as int));
            assert(next.last() == part@);
        }
        if leads_up(part) {
            if kept.len() > 0 {
                let _ = kept.pop();
                assert(views(kept@) =~= views(before).drop_last());
            }
        } else {
            let copy: Vec<char> = copied(part);
            let ghost text = copy@;
            kept.push(copy);
            assert(views(kept@) =~= views(before).push(text));
        }
        i += 1;
    }
    assert(all.take(i as int) =~= all);
    kept
}

/// Whether the first `count` of `parts` are the first `count` of `start`.
fn agree(parts: &Vec<Vec<char>>, start: &Vec<Vec<char>>, count: usize) -> (same: bool)
    requires
        count <= parts.len(),
        count <= start.len(),
    ensures
        same == (views(parts@).take(count as int) == views(start@).take(count as int)),
{
    let ghost p = views(parts@).take(count as int);
    let ghost s = views(start@).take(count as int);
    let mut i: usize = 0;
    while i < count
        invariant
            i <= count <= parts.len(),
            count <= start.len(),
            p == views(parts@).take(count as int),
            s == views(start@).take(count as int),
            forall|k: int| 0 <= k < i ==> p[k] == s[k],
        decreases count - i,
    {
        if !same_component(&parts[i], &start[i]) {
            assert(p[i as int] != s[i as int]);
            return false;
        }
        i += 1;
    }
    assert(p =~= s);
    true
}

/// Whether `whole` starts with `start`.
fn starts_with(whole: &Vec<Vec<char>>, start: &Vec<Vec<char>>) -> (starts: bool)
    ensures
        starts == leads_with(views(whole@), views(start@)),
{
    assert(views(start@).take(start@.len() as int) =~= views(start@));
    start.len() <= whole.len() && agree(whole, start, start.len())
}

/// Whether two paths start at the same root.
fn start_alike(left: &ParsedPath, right: &ParsedPath) -> (alike: bool)
    requires
        left@.form is Disk || left@.form is VerbatimDisk ==> left@.names.len() == 1 && has_drive(
            left@.names[0],
        ),
        right@.form is Disk || right@.form is VerbatimDisk ==> right@.names.len() == 1 && has_drive(
            right@.names[0],
        ),
    ensures
        alike == same_start(left@, right@),
{
    if left.form != right.form {
        return false;
    }
    if matches!(left.form, PrefixForm::Disk | PrefixForm::VerbatimDisk) {
        assert(left.names@[0]@ == left@.names[0] && right.names@[0]@ == right@.names[0]);
        return is_same_drive(left.names[0][0], right.names[0][0]);
    }
    assert(views(left.names@).take(left.names@.len() as int) =~= views(left.names@));
    assert(views(right.names@).take(right.names@.len() as int) =~= views(right.names@));
    left.names.len() == right.names.len() && agree(&left.names, &right.names, left.names.len())
}

/// Whether a path is `root` or lies below it, once every `..` in both is carried
/// out.
pub fn lies_within(path: &str, root: &str, platform: Platform) -> (within: bool)
    ensures
        within == lies_inside(path@, root@, platform),
{
    let parts: ParsedPath = parse(path, platform);
    let roots: ParsedPath = parse(root, platform);
    start_alike(&parts, &roots) && starts_with(
        &resolve(&components_of(&parts)),
        &resolve(&components_of(&roots)),
    )
}

/// Whether the components of an absolute path start with those of `root`, as
/// they are written: `..` counts as a name.
pub fn is_within(path: &str, root: &str, platform: Platform) -> (within: bool)
    ensures
        within == leads_with(components(path@, platform), components(root@, platform)),
{
    starts_with(&components_of(&parse(path, platform)), &components_of(&parse(root, platform)))
}

/// Going up takes back going down, and what is left leads nowhere upward.
pub proof fn law_going_up_takes_back_going_down(parts: Seq<Seq<char>>, name: Seq<char>)
    ensures
        name != seq!['.', '.'] ==> resolved(parts.push(name).push(seq!['.', '.'])) == resolved(
            parts,
        ),
        forall|i: int|
            0 <= i < resolved(parts).len() ==> #[trigger] resolved(parts)[i] != seq!['.', '.'],
    decreases parts.len(),
{
    let up = seq!['.', '.'];
    let down = parts.push(name);
    assert(down.drop_last() =~= parts);
    assert(down.push(up).drop_last() =~= down);
    if name != up {
        assert(resolved(down) == resolved(parts).push(name));
        assert(resolved(down).drop_last() =~= resolved(parts));
    }
    if parts.len() > 0 {
        law_going_up_takes_back_going_down(parts.drop_last(), name);
        let before = resolved(parts.drop_last());
        assert forall|i: int| 0 <= i < resolved(parts).len() implies #[trigger] resolved(parts)[i]
            != up by {
            if i < before.len() {
                assert(resolved(parts)[i] == before[i]);
            }
        }
    }
}

/// Away from Windows a path is absolute exactly where it starts with a slash. On
/// Windows a drive is not enough: a separator follows it.
pub proof fn law_absolute_paths_start_at_a_root(
    path: &str,
    platform: Platform,
    absolute: bool,
)
    requires
        call_ensures(starts_at_root, (path, platform), absolute),
    ensures
        platform != Platform::Windows ==> (absolute <==> path@.len() > 0 && path@[0] == '/'),
        platform == Platform::Windows && path@.len() >= 2 && path@[1] == ':' && (97
            <= path@[0] as int <= 122 || 65 <= path@[0] as int <= 90) ==> (absolute <==> path@.len()
            > 2 && (path@[2] == '/' || path@[2] == '\\')),
        platform == Platform::Windows && path@.len() >= 4 && path@[0] == '\\' && path@[1] == '\\'
            && path@[2] == '?' && path@[3] == '\\' ==> absolute,
        platform == Platform::Windows && path@.len() > 0 && path@[0] != '/' && path@[0] != '\\' && !(
        path@.len() >= 2 && path@[1] == ':') ==> !absolute,
        platform == Platform::Windows && path@.len() == 1 ==> !absolute,
        platform == Platform::Windows && path@.len() >= 2 && (path@[0] == '/' || path@[0] == '\\')
            && path@[1] != '/' && path@[1] != '\\' && path@[1] != ':' ==> !absolute,
{
    let plain = slashed(path@, platform);
    assert(plain.len() == path@.len());
    if path@.len() >= 4 {
        assert(path@.take(4)[0] == path@[0]);
        assert(path@.take(4)[1] == path@[1]);
        assert(path@.take(4)[2] == path@[2]);
        assert(path@.take(4)[3] == path@[3]);
        if path@[0] == '\\' && path@[1] == '\\' && path@[2] == '?' && path@[3] == '\\' {
            assert(path@.take(4) =~= seq!['\\', '\\', '?', '\\']);
        }
    }
}

/// The parts of a text are the parts before a place where it is cut and those behind it.
pub proof fn lemma_parts_join(left: Seq<char>, right: Seq<char>, c: char)
    ensures
        split(left + seq![c] + right, c) == split(left, c) + split(right, c),
    decreases left.len(),
{
    lemma_find(left, c);
    let whole = left + seq![c] + right;
    lemma_find(whole, c);
    let n = find(left, c) as int;
    let k = find(whole, c) as int;
    assert(whole[left.len() as int] == c);
    if n < left.len() {
        assert(whole[n] == c);
        assert(k == n) by {
            if k < n {
                assert(whole[k] == left[k]);
            }
            if n < k {
                assert(whole[n] != c);
            }
        }
        let tail = left.skip(n + 1);
        lemma_parts_join(tail, right, c);
        assert(whole.take(n) =~= left.take(n));
        assert(whole.skip(n + 1) =~= tail + seq![c] + right);
        assert(split(whole, c) =~= seq![left.take(n)] + (split(tail, c) + split(right, c)));
        assert(split(left, c) =~= seq![left.take(n)] + split(tail, c));
    } else {
        assert(k == left.len()) by {
            if k < left.len() {
                assert(whole[k] == left[k]);
            }
            if left.len() < k {
                assert(whole[left.len() as int] != c);
            }
        }
        assert(whole.take(k) =~= left);
        assert(whole.skip(k + 1) =~= right);
    }
}

proof fn lemma_one_part(name: Seq<char>, c: char)
    requires
        !name.contains(c),
    ensures
        split(name, c) == seq![name],
{
    lemma_find(name, c);
}

/// A name that is appended to a path is the path's last component.
proof fn lemma_appended(path: Seq<char>, name: Seq<char>, platform: Platform)
    requires
        platform != Platform::Windows,
        name.len() > 0,
        !name.contains('/'),
        name != seq!['.'],
    ensures
        components(path + seq!['/'] + name, platform) == components(path, platform).push(name),
{
    let whole = path + seq!['/'] + name;
    lemma_parts_join(path, name, '/');
    lemma_one_part(name, '/');
    let view = bare(path);
    let counts = |piece: Seq<char>| view.counts(piece);
    let others = |piece: Seq<char>| bare(whole).counts(piece);
    assert(counts =~= others);
    Seq::filter_distributes_over_add(split(path, '/'), seq![name], counts);
    reveal(Seq::filter);
    let one = seq![name];
    assert(one.drop_last() =~= Seq::empty());
    assert(one.drop_last().filter(counts) =~= Seq::empty());
    assert(one.filter(counts) =~= seq![name]);
    assert(components(path, platform) + seq![name] =~= components(path, platform).push(name));
}

/// Away from Windows, what is appended to a path is its last name and lies inside the
/// path, whatever the path is; two names in one directory are inside each other only
/// where they are the same.
pub proof fn law_names_lie_inside_their_directory(
    path: Seq<char>,
    name: Seq<char>,
    other: Seq<char>,
    platform: Platform,
    child: &str,
    root: &str,
    sibling: &str,
    within: bool,
    beside: bool,
    last: Option<String>,
)
    requires
        platform != Platform::Windows,
        name.len() > 0,
        !name.contains('/'),
        name != seq!['.'],
        name != seq!['.', '.'],
        other.len() > 0,
        !other.contains('/'),
        other != seq!['.'],
        other != seq!['.', '.'],
        root@ == path,
        child@ == path + seq!['/'] + name,
        sibling@ == path + seq!['/'] + other,
        call_ensures(lies_within, (child, root, platform), within),
        call_ensures(lies_within, (child, sibling, platform), beside),
        call_ensures(file_name_of, (child, platform), last),
    ensures
        within,
        beside <==> name == other,
        last matches Some(text) && text@ == name,
{
    lemma_appended(path, name, platform);
    lemma_appended(path, other, platform);
    let parts = components(path, platform);
    assert(parts.push(name).drop_last() =~= parts);
    assert(parts.push(other).drop_last() =~= parts);
    let top = resolved(parts);
    assert(resolved(parts.push(name)) == top.push(name));
    assert(resolved(parts.push(other)) == top.push(other));
    assert(top.push(name).take(top.len() as int) =~= top);
    assert(top.push(name).take(top.len() as int + 1) =~= top.push(name));
    if name != other {
        assert(top.push(name)[top.len() as int] != top.push(other)[top.len() as int]);
    }
}

/// A path lies inside itself, and what lies inside what lies inside a path lies inside
/// the path, wherever there is one root.
pub proof fn law_lying_inside_carries_on(
    path: Seq<char>,
    middle: Seq<char>,
    root: Seq<char>,
    platform: Platform,
)
    requires
        platform != Platform::Windows,
    ensures
        lies_inside(path, path, platform),
        lies_inside(path, middle, platform) && lies_inside(middle, root, platform) ==> lies_inside(
            path,
            root,
            platform,
        ),
{
    let a = resolved(components(path, platform));
    let b = resolved(components(middle, platform));
    let c = resolved(components(root, platform));
    assert(a.take(a.len() as int) =~= a);
    if leads_with(a, b) && leads_with(b, c) {
        assert(a.take(c.len() as int) =~= b.take(c.len() as int));
    }
}

/// The case of a drive's letter does not matter.
pub proof fn law_drives_have_no_case(left: char, right: char)
    requires
        65 <= left as int <= 90,
    ensures
        same_drive(left, right) <==> same_drive(right, left),
        same_drive(left, right) <==> right as int == left as int || right as int == left as int + 32,
{
}

/// On Windows either separator parts a path that is not to be taken as it stands.
pub proof fn law_separators_are_alike(path: Seq<char>)
    requires
        !says_verbatim(path),
    ensures
        parsed(path, Platform::Windows) == parsed(
            path.map_values(
                |c: char|
                    if c == '\\' {
                        '/'
                    } else {
                        c
                    },
            ),
            Platform::Windows,
        ),
{
    let plain = slashed(path, Platform::Windows);
    let again = slashed(plain, Platform::Windows);
    assert(again =~= plain);
    if says_verbatim(plain) {
        assert(plain.take(4)[0] == '\\');
        assert(plain[0] != '\\');
    }
    assert(path.map_values(
        |c: char|
            if c == '\\' {
                '/'
            } else {
                c
            },
    ) =~= plain);
}

/// On Windows a path that names a share of a server is absolute, and so is one that
/// names a device. A server alone is not.
pub proof fn law_shares_and_devices_are_absolute(
    server: Seq<char>,
    share: Seq<char>,
    rest: Seq<char>,
    path: &str,
    device: &str,
    alone: &str,
    on_share: bool,
    on_device: bool,
    on_server: bool,
)
    requires
        server.len() > 0,
        !server.contains('/'),
        !server.contains('\\'),
        server != seq!['.'],
        share.len() > 0,
        !share.contains('/'),
        !share.contains('\\'),
        path@ == seq!['/', '/'] + (server + seq!['/'] + (share + seq!['/'] + rest)),
        device@ == seq!['/', '/', '.', '/'] + rest,
        alone@ == seq!['/', '/'] + server,
        call_ensures(starts_at_root, (path, Platform::Windows), on_share),
        call_ensures(starts_at_root, (device, Platform::Windows), on_device),
        call_ensures(starts_at_root, (alone, Platform::Windows), on_server),
    ensures
        on_share,
        on_device,
        !on_server,
{
    let inner = share + seq!['/'] + rest;
    let outer = server + seq!['/'] + inner;
    let plain = slashed(path@, Platform::Windows);
    let tail = slashed(rest, Platform::Windows);
    assert forall|i: int| 0 <= i < server.len() implies #[trigger] server[i] != '\\' by {
        assert(server.contains(server[i]));
    }
    assert forall|i: int| 0 <= i < share.len() implies #[trigger] share[i] != '\\' by {
        assert(share.contains(share[i]));
    }
    assert(plain =~= seq!['/', '/'] + (server + seq!['/'] + (share + seq!['/'] + tail)));
    assert(plain.skip(2) =~= server + seq!['/'] + (share + seq!['/'] + tail));
    lemma_cut(server, share + seq!['/'] + tail, '/');
    lemma_cut(share, tail, '/');
    if says_verbatim(path@) {
        assert(path@.take(4)[0] == path@[0]);
    }
    if plain.len() >= 4 && plain[2] == '.' && plain[3] == '/' {
        assert(plain[2] == server[0]);
        if server.len() > 1 {
            assert(plain[3] == server[1]);
            assert(server.contains('/'));
        }
        assert(server =~= seq!['.']);
    }
    let flat = slashed(device@, Platform::Windows);
    assert(flat =~= seq!['/', '/', '.', '/'] + tail);
    if says_verbatim(device@) {
        assert(device@.take(4)[0] == device@[0]);
    }
    let lone = slashed(alone@, Platform::Windows);
    assert(lone =~= alone@);
    assert(lone.skip(2) =~= server);
    if says_verbatim(alone@) {
        assert(alone@.take(4)[0] == alone@[0]);
    }
    lemma_find(server, '/');
    if lone.len() >= 4 && lone[2] == '.' && lone[3] == '/' {
        assert(lone[3] == server[1]);
        assert(server.contains('/'));
    }
    let shared = at_share(PrefixForm::Share, server, '/');
    assert(split_once(server, '/') is None);
    lemma_find(Seq::empty(), '/');
    assert(shared.names[1].len() == 0);
}

/// On a drive, what is appended to a path is its last name and lies inside the path.
pub proof fn law_names_lie_inside_their_drive(
    path: Seq<char>,
    name: Seq<char>,
    root: &str,
    child: &str,
    within: bool,
    last: Option<String>,
)
    requires
        path.len() >= 3,
        97 <= path[0] as int <= 122 || 65 <= path[0] as int <= 90,
        path[1] == ':',
        name.len() > 0,
        !name.contains('/'),
        !name.contains('\\'),
        name != seq!['.'],
        name != seq!['.', '.'],
        root@ == path,
        child@ == path + seq!['\\'] + name,
        call_ensures(lies_within, (child, root, Platform::Windows), within),
        call_ensures(file_name_of, (child, Platform::Windows), last),
    ensures
        within,
        last matches Some(text) && text@ == name,
{
    let plain = slashed(path, Platform::Windows);
    let whole = slashed(child@, Platform::Windows);
    assert forall|i: int| 0 <= i < name.len() implies #[trigger] name[i] != '\\' by {
        assert(name.contains(name[i]));
    }
    assert(whole =~= plain + seq!['/'] + name);
    assert(plain[0] == path[0] && plain[1] == path[1]);
    assert(whole[0] == path[0] && whole[1] == path[1]);
    if says_verbatim(path) {
        assert(path.take(4)[0] == path[0]);
    }
    if says_verbatim(child@) {
        assert(child@.take(4)[0] == path[0]);
    }
    let rest = plain.skip(2);
    assert(whole.skip(2) =~= rest + seq!['/'] + name);
    assert(whole.take(2) =~= plain.take(2));
    lemma_parts_join(rest, name, '/');
    lemma_one_part(name, '/');
    let view = parsed(path, Platform::Windows);
    let below = parsed(child@, Platform::Windows);
    let counts = |piece: Seq<char>| view.counts(piece);
    let others = |piece: Seq<char>| below.counts(piece);
    assert(counts =~= others);
    Seq::filter_distributes_over_add(split(rest, '/'), seq![name], counts);
    reveal(Seq::filter);
    let one = seq![name];
    assert(one.drop_last() =~= Seq::empty());
    assert(one.drop_last().filter(counts) =~= Seq::empty());
    assert(one.filter(counts) =~= seq![name]);
    let parts = components(path, Platform::Windows);
    assert(components(child@, Platform::Windows) =~= parts.push(name));
    assert(parts.push(name).drop_last() =~= parts);
    let top = resolved(parts);
    assert(resolved(parts.push(name)) == top.push(name));
    assert(top.push(name).take(top.len() as int) =~= top);
}

/// On Windows a share needs a server: a path that starts with three separators names
/// none, and is not absolute.
pub proof fn law_a_share_needs_a_server(path: &str, absolute: bool)
    requires
        path@.len() >= 3,
        path@[0] == '/',
        path@[1] == '/',
        path@[2] == '/',
        call_ensures(starts_at_root, (path, Platform::Windows), absolute),
    ensures
        !absolute,
{
    let plain = slashed(path@, Platform::Windows);
    assert(plain[0] == '/' && plain[1] == '/' && plain[2] == '/');
    if says_verbatim(path@) {
        assert(path@.take(4)[0] == path@[0]);
    }
    let text = plain.skip(2);
    assert(text[0] == '/');
    lemma_find(text, '/');
    assert(find(text, '/') == 0);
    assert(text.take(0).len() == 0);
}

/// Away from Windows, going up from a directory leaves it for the one that it is in.
pub proof fn law_going_up_leaves_a_directory(
    path: Seq<char>,
    name: Seq<char>,
    platform: Platform,
    root: &str,
    dir: &str,
    up: &str,
    inside_dir: bool,
    inside_root: bool,
    root_inside: bool,
)
    requires
        platform != Platform::Windows,
        name.len() > 0,
        !name.contains('/'),
        name != seq!['.'],
        name != seq!['.', '.'],
        root@ == path,
        dir@ == path + seq!['/'] + name,
        up@ == dir@ + seq!['/'] + seq!['.', '.'],
        call_ensures(lies_within, (up, dir, platform), inside_dir),
        call_ensures(lies_within, (up, root, platform), inside_root),
        call_ensures(lies_within, (root, up, platform), root_inside),
    ensures
        !inside_dir,
        inside_root,
        root_inside,
{
    let dots = seq!['.', '.'];
    assert(dots[0] == '.' && dots[1] == '.');
    assert(dots != seq!['.']);
    lemma_appended(path, name, platform);
    lemma_appended(dir@, dots, platform);
    let parts = components(path, platform);
    law_going_up_takes_back_going_down(parts, name);
    assert(parts.push(name).drop_last() =~= parts);
    let top = resolved(parts);
    assert(resolved(parts.push(name)) == top.push(name));
    assert(top.take(top.len() as int) =~= top);
}

} // verus!
