//! A model of Unix path syntax as `std::path::Path` reads it: components,
//! file names, extensions, component-wise prefixes and joining.

use vstd::prelude::*;
use crate::text_support::{chars_of, string_of};

verus! {

/// A segment between separators that names something (not empty, not `.`).
pub open spec fn keeps(seg: Seq<char>) -> bool {
    seg.len() > 0 && seg != seq!['.']
}

/// Scan `s` left to right: the kept segments closed so far, and the segment
/// still being read.
pub open spec fn scan(s: Seq<char>) -> (Seq<Seq<char>>, Seq<char>)
    decreases s.len(),
{
    if s.len() == 0 {
        (Seq::empty(), Seq::empty())
    } else {
        let (done, cur) = scan(s.drop_last());
        if s.last() == '/' {
            (if keeps(cur) {
                done.push(cur)
            } else {
                done
            }, Seq::empty())
        } else {
            (done, cur.push(s.last()))
        }
    }
}

/// The named segments of `s`, in order (`..` included).
pub open spec fn segments(s: Seq<char>) -> Seq<Seq<char>> {
    let (done, cur) = scan(s);
    if keeps(cur) {
        done.push(cur)
    } else {
        done
    }
}

/// `s` begins with the root separator.
pub open spec fn is_absolute(s: Seq<char>) -> bool {
    s.len() > 0 && s[0] == '/'
}

/// `s` begins with a current-directory component (`.` or `./...`).
pub open spec fn leads_with_cur_dir(s: Seq<char>) -> bool {
    s.len() > 0 && s[0] == '.' && (s.len() == 1 || s[1] == '/')
}

/// The components of `s` as `Path::components` yields them: `/` for the
/// root, `.` for a leading current directory, then the named segments.
pub open spec fn components(s: Seq<char>) -> Seq<Seq<char>> {
    if is_absolute(s) {
        seq![seq!['/']] + segments(s)
    } else if leads_with_cur_dir(s) {
        seq![seq!['.']] + segments(s)
    } else {
        segments(s)
    }
}

/// A component that names a file or directory (not root, `.` or `..`).
pub open spec fn is_named(c: Seq<char>) -> bool {
    c != seq!['/'] && c != seq!['.'] && c != seq!['.', '.']
}

/// `Path::file_name`: the last component, when it is a name.
pub open spec fn file_name(s: Seq<char>) -> Option<Seq<char>> {
    let c = components(s);
    if c.len() > 0 && is_named(c.last()) {
        Some(c.last())
    } else {
        None
    }
}

/// `base`'s components are a prefix of `full`'s (`Path::starts_with`).
pub open spec fn path_starts_with(full: Seq<char>, base: Seq<char>) -> bool {
    let f = components(full);
    let b = components(base);
    b.len() <= f.len() && f.subrange(0, b.len() as int) == b
}

/// Some component of `s` is `..`.
pub open spec fn has_parent_dir(s: Seq<char>) -> bool {
    exists|i: int| 0 <= i < components(s).len() && components(s)[i] == seq!['.', '.']
}

/// `Path::join`: an absolute `rel` replaces `base`; otherwise `rel` is
/// appended, with a separator unless `base` is empty or already ends in one.
pub open spec fn joined(base: Seq<char>, rel: Seq<char>) -> Seq<char> {
    if is_absolute(rel) {
        rel
    } else if base.len() > 0 && base.last() != '/' {
        base + seq!['/'] + rel
    } else {
        base + rel
    }
}

/// The position of the last `.` in `name`, if any.
pub open spec fn last_dot(name: Seq<char>) -> Option<int> {
    if exists|i: int| 0 <= i < name.len() && name[i] == '.' {
        let k = choose|i: int|
            0 <= i < name.len() && name[i] == '.' && forall|j: int|
                i < j < name.len() ==> name[j] != '.';
        Some(k)
    } else {
        None
    }
}

/// `Path::extension` of a file name: the part after its last `.`, unless
/// there is no `.` or the only `.` begins the name.
pub open spec fn name_extension(name: Seq<char>) -> Option<Seq<char>> {
    match last_dot(name) {
        Some(k) => if k == 0 {
            None
        } else {
            Some(name.subrange(k + 1, name.len() as int))
        },
        None => None,
    }
}

/// `Path::extension` of a whole path.
pub open spec fn path_extension(s: Seq<char>) -> Option<Seq<char>> {
    match file_name(s) {
        Some(n) => name_extension(n),
        None => None,
    }
}

/// The character sequences of a list of character vectors.
pub open spec fn seg_views(v: Seq<Vec<char>>) -> Seq<Seq<char>> {
    Seq::new(v.len(), |i: int| v[i]@)
}

fn keeps_exec(seg: &Vec<char>) -> (r: bool)
    ensures
        r == keeps(seg@),
{
    if seg.len() == 0 {
        false
    } else if seg.len() == 1 && seg[0] == '.' {
        assert(seg@ =~= seq!['.']);
        false
    } else {
        proof {
            if seg@ == seq!['.'] {
                assert(seg@[0] == '.');
            }
        }
        true
    }
}

/// `done` followed by the named segments of `cs`.
fn collect_segments(cs: &Vec<char>, done: Vec<Vec<char>>) -> (out: Vec<Vec<char>>)
    ensures
        seg_views(out@) == seg_views(done@) + segments(cs@),
{
    let ghost lead = seg_views(done@);
    let mut done = done;
    let n = cs.len();
    let mut cur: Vec<char> = Vec::new();
    let mut i: usize = 0;
    proof {
        assert(lead + scan(cs@.subrange(0, 0)).0 =~= lead);
    }
    while i < n
        invariant
            n == cs@.len(),
            i <= n,
            seg_views(done@) == lead + scan(cs@.subrange(0, i as int)).0,
            cur@ == scan(cs@.subrange(0, i as int)).1,
        decreases n - i,
    {
        let c = cs[i];
        proof {
            assert(cs@.subrange(0, i + 1).drop_last() =~= cs@.subrange(0, i as int));
        }
        let ghost before = scan(cs@.subrange(0, i as int)).0;
        if c == '/' {
            if keeps_exec(&cur) {
                let ghost prev = done@;
                let ghost closed = cur@;
                done.push(cur);
                proof {
                    assert(seg_views(done@) =~= seg_views(prev).push(closed));
                    assert(lead + before.push(closed) =~= (lead + before).push(closed));
                }
            }
            cur = Vec::new();
        } else {
            cur.push(c);
        }
        i = i + 1;
    }
    proof {
        assert(cs@.subrange(0, n as int) =~= cs@);
    }
    if keeps_exec(&cur) {
        let ghost prev = done@;
        let ghost closed = cur@;
        done.push(cur);
        proof {
            assert(seg_views(done@) =~= seg_views(prev).push(closed));
            assert(lead + scan(cs@).0.push(closed) =~= (lead + scan(cs@).0).push(closed));
        }
    }
    done
}

/// The named segments of `s`, in order.
pub fn segments_of(s: &str) -> (out: Vec<Vec<char>>)
    ensures
        seg_views(out@) == segments(s@),
{
    let cs = chars_of(s);
    let out = collect_segments(&cs, Vec::new());
    proof {
        assert(seg_views(Seq::<Vec<char>>::empty()) + segments(s@) =~= segments(s@));
    }
    out
}

/// Two character slices hold the same characters.
pub fn chars_eq(a: &[char], b: &[char]) -> (r: bool)
    ensures
        r == (a@ == b@),
{
    if a.len() != b.len() {
        return false;
    }
    let mut i: usize = 0;
    while i < a.len()
        invariant
            a@.len() == b@.len(),
            i <= a@.len(),
            forall|k: int| 0 <= k < i ==> a@[k] == b@[k],
        decreases a@.len() - i,
    {
        if a[i] != b[i] {
            return false;
        }
        i = i + 1;
    }
    proof {
        assert(a@ =~= b@);
    }
    true
}

/// The components of `s`, as `Path::components` yields them.
pub fn components_of(s: &str) -> (out: Vec<Vec<char>>)
    ensures
        seg_views(out@) == components(s@),
{
    let cs = chars_of(s);
    let mut lead: Vec<Vec<char>> = Vec::new();
    if cs.len() > 0 && cs[0] == '/' {
        let mut root: Vec<char> = Vec::new();
        root.push('/');
        assert(root@ =~= seq!['/']);
        lead.push(root);
        assert(seg_views(lead@) =~= seq![seq!['/']]);
    } else if cs.len() > 0 && cs[0] == '.' && (cs.len() == 1 || cs[1] == '/') {
        let mut cur: Vec<char> = Vec::new();
        cur.push('.');
        assert(cur@ =~= seq!['.']);
        lead.push(cur);
        assert(seg_views(lead@) =~= seq![seq!['.']]);
    }
    proof {
        assert(seg_views(lead@) =~= (if is_absolute(s@) {
            seq![seq!['/']]
        } else if leads_with_cur_dir(s@) {
            seq![seq!['.']]
        } else {
            Seq::<Seq<char>>::empty()
        }));
        if !is_absolute(s@) && !leads_with_cur_dir(s@) {
            assert(Seq::<Seq<char>>::empty() + segments(s@) =~= segments(s@));
        }
    }
    collect_segments(&cs, lead)
}

fn one_char(c: char) -> (v: Vec<char>)
    ensures
        v@ == seq![c],
{
    let mut v: Vec<char> = Vec::new();
    v.push(c);
    assert(v@ =~= seq![c]);
    v
}

fn two_chars(a: char, b: char) -> (v: Vec<char>)
    ensures
        v@ == seq![a, b],
{
    let mut v: Vec<char> = Vec::new();
    v.push(a);
    v.push(b);
    assert(v@ =~= seq![a, b]);
    v
}

/// Is this component a name (not root, `.` or `..`)?
pub fn is_named_component(c: &[char]) -> (r: bool)
    ensures
        r == is_named(c@),
{
    !chars_eq(c, one_char('/').as_slice()) && !chars_eq(c, one_char('.').as_slice())
        && !chars_eq(c, two_chars('.', '.').as_slice())
}

/// `Path::file_name` as characters.
pub fn file_name_chars(s: &str) -> (r: Option<Vec<char>>)
    ensures
        match r {
            Some(n) => file_name(s@) == Some(n@),
            None => file_name(s@) is None,
        },
{
    let mut comps = components_of(s);
    let n = comps.len();
    if n == 0 {
        return None;
    }
    let ghost views = seg_views(comps@);
    let last = comps.pop().unwrap();
    proof {
        assert(last@ == views[n - 1]);
    }
    if is_named_component(last.as_slice()) {
        Some(last)
    } else {
        None
    }
}

/// `Path::file_name` as a string.
pub fn file_name_of(s: &str) -> (r: Option<String>)
    ensures
        match r {
            Some(n) => file_name(s@) == Some(n@),
            None => file_name(s@) is None,
        },
{
    match file_name_chars(s) {
        Some(n) => Some(string_of(n.as_slice())),
        None => None,
    }
}

/// `Path::extension` of a file name.
pub fn extension_of_name(name: &[char]) -> (r: Option<Vec<char>>)
    ensures
        match r {
            Some(e) => name_extension(name@) == Some(e@),
            None => name_extension(name@) is None,
        },
{
    let n = name.len();
    let mut k: usize = n;
    while k > 0 && name[k - 1] != '.'
        invariant
            n == name@.len(),
            k <= n,
            forall|j: int| k <= j < n ==> name@[j] != '.',
        decreases k,
    {
        k = k - 1;
    }
    if k == 0 {
        proof {
            assert(!(exists|i: int| 0 <= i < name@.len() && name@[i] == '.'));
        }
        return None;
    }
    let dot = k - 1;
    proof {
        let p = |i: int|
            0 <= i < name@.len() && name@[i] == '.' && forall|j: int|
                i < j < name@.len() ==> name@[j] != '.';
        assert(p(dot as int));
        let c = choose|i: int|
            0 <= i < name@.len() && name@[i] == '.' && forall|j: int|
                i < j < name@.len() ==> name@[j] != '.';
        assert(p(c));
        if c < dot {
            assert(name@[dot as int] != '.');
        }
        if c > dot {
            assert(name@[c] != '.');
        }
        assert(c == dot);
        assert(last_dot(name@) == Some(dot as int));
    }
    if dot == 0 {
        return None;
    }
    let mut ext: Vec<char> = Vec::new();
    let mut i: usize = k;
    while i < n
        invariant
            n == name@.len(),
            k <= i <= n,
            ext@ == name@.subrange(k as int, i as int),
        decreases n - i,
    {
        ext.push(name[i]);
        proof {
            assert(name@.subrange(k as int, i + 1) =~= name@.subrange(k as int, i as int).push(
                name@[i as int],
            ));
        }
        i = i + 1;
    }
    Some(ext)
}

/// The `Content-Type` served for a file extension (already lowercased);
/// only image types are served.
pub open spec fn image_type(ext: Seq<char>) -> Option<Seq<char>> {
    if ext == "png"@ {
        Some("image/png"@)
    } else if ext == "jpg"@ || ext == "jpeg"@ {
        Some("image/jpeg"@)
    } else if ext == "gif"@ {
        Some("image/gif"@)
    } else if ext == "webp"@ {
        Some("image/webp"@)
    } else if ext == "avif"@ {
        Some("image/avif"@)
    } else if ext == "bmp"@ {
        Some("image/bmp"@)
    } else if ext == "ico"@ {
        Some("image/x-icon"@)
    } else if ext == "svg"@ {
        Some("image/svg+xml"@)
    } else {
        None
    }
}

/// The image `Content-Type` for `path`, chosen by its extension compared
/// case-insensitively.
pub open spec fn content_type_of(path: Seq<char>) -> Option<Seq<char>> {
    match path_extension(path) {
        Some(e) => image_type(crate::text_support::lower_seq(e)),
        None => None,
    }
}

fn is_word(v: &[char], word: &str) -> (r: bool)
    ensures
        r == (v@ == word@),
{
    let w = chars_of(word);
    chars_eq(v, w.as_slice())
}

/// The `Content-Type` to serve `path` with, or `None` when it is not an
/// image (only images are ever served from the vault).
pub fn image_content_type(path: &str) -> (r: Option<&'static str>)
    ensures
        match r {
            Some(t) => content_type_of(path@) == Some(t@),
            None => content_type_of(path@) is None,
        },
{
    let name = match file_name_chars(path) {
        Some(n) => n,
        None => return None,
    };
    let ext = match extension_of_name(name.as_slice()) {
        Some(e) => e,
        None => return None,
    };
    let lower = crate::text_support::lower_all(ext.as_slice());
    let l = lower.as_slice();
    if is_word(l, "png") {
        Some("image/png")
    } else if is_word(l, "jpg") || is_word(l, "jpeg") {
        Some("image/jpeg")
    } else if is_word(l, "gif") {
        Some("image/gif")
    } else if is_word(l, "webp") {
        Some("image/webp")
    } else if is_word(l, "avif") {
        Some("image/avif")
    } else if is_word(l, "bmp") {
        Some("image/bmp")
    } else if is_word(l, "ico") {
        Some("image/x-icon")
    } else if is_word(l, "svg") {
        Some("image/svg+xml")
    } else {
        None
    }
}

/// Is `base` a component-wise prefix of `full` (`Path::starts_with`)?
pub fn starts_with(full: &str, base: &str) -> (r: bool)
    ensures
        r == path_starts_with(full@, base@),
{
    let f = components_of(full);
    let b = components_of(base);
    let ghost fv = seg_views(f@);
    let ghost bv = seg_views(b@);
    if b.len() > f.len() {
        return false;
    }
    let mut i: usize = 0;
    while i < b.len()
        invariant
            fv == seg_views(f@),
            bv == seg_views(b@),
            fv == components(full@),
            bv == components(base@),
            b@.len() <= f@.len(),
            i <= b@.len(),
            forall|k: int| 0 <= k < i ==> fv[k] == bv[k],
        decreases b@.len() - i,
    {
        if !chars_eq(f[i].as_slice(), b[i].as_slice()) {
            proof {
                assert(fv[i as int] != bv[i as int]);
                assert(fv.subrange(0, bv.len() as int)[i as int] != bv[i as int]);
            }
            return false;
        }
        i = i + 1;
    }
    proof {
        assert(fv.subrange(0, bv.len() as int) =~= bv);
    }
    true
}

/// Does some component of `s` step up with `..`?
pub fn contains_parent_dir(s: &str) -> (r: bool)
    ensures
        r == has_parent_dir(s@),
{
    let c = components_of(s);
    let ghost cv = seg_views(c@);
    let up = two_chars('.', '.');
    let mut i: usize = 0;
    while i < c.len()
        invariant
            cv == seg_views(c@),
            cv == components(s@),
            up@ == seq!['.', '.'],
            i <= c@.len(),
            forall|k: int| 0 <= k < i ==> cv[k] != seq!['.', '.'],
        decreases c@.len() - i,
    {
        if chars_eq(c[i].as_slice(), up.as_slice()) {
            proof {
                assert(cv[i as int] == seq!['.', '.']);
            }
            return true;
        }
        i = i + 1;
    }
    false
}

/// `Path::join`.
pub fn join(base: &str, rel: &str) -> (r: String)
    ensures
        r@ == joined(base@, rel@),
{
    let r = chars_of(rel);
    if r.len() > 0 && r[0] == '/' {
        return rel.to_owned();
    }
    let b = chars_of(base);
    proof {
        reveal_strlit("/");
    }
    if b.len() > 0 && b[b.len() - 1] != '/' {
        crate::text_support::concat3(base, "/", rel)
    } else {
        crate::text_support::concat(base, rel)
    }
}

/// Named components separated by `/`.
pub open spec fn slash_joined(segs: Seq<Seq<char>>) -> Seq<char>
    decreases segs.len(),
{
    if segs.len() == 0 {
        Seq::empty()
    } else if segs.len() == 1 {
        segs[0]
    } else {
        slash_joined(segs.drop_last()) + seq!['/'] + segs.last()
    }
}

/// The path spelled by a component list (a leading root component becomes
/// the leading `/`).
pub open spec fn spelled(comps: Seq<Seq<char>>) -> Seq<char> {
    if comps.len() > 0 && comps[0] == seq!['/'] {
        seq!['/'] + slash_joined(comps.drop_first())
    } else {
        slash_joined(comps)
    }
}

/// `Path::parent`: the path without its last component, unless that
/// component is the root or there is none.
pub open spec fn parent_of(s: Seq<char>) -> Option<Seq<char>> {
    let c = components(s);
    if c.len() == 0 || c.last() == seq!['/'] {
        None
    } else {
        Some(spelled(c.drop_last()))
    }
}

/// `Path::strip_prefix`: the components of `full` after those of `base`,
/// when `base` is a prefix of it.
pub open spec fn stripped(full: Seq<char>, base: Seq<char>) -> Option<Seq<char>> {
    if path_starts_with(full, base) {
        Some(
            spelled(components(full).subrange(components(base).len() as int, components(full).len() as int)),
        )
    } else {
        None
    }
}

fn slash_join_from(segs: &[Vec<char>], start: usize) -> (r: Vec<char>)
    requires
        start <= segs@.len(),
    ensures
        r@ == slash_joined(seg_views(segs@).subrange(start as int, segs@.len() as int)),
{
    let ghost all = seg_views(segs@);
    let mut out: Vec<char> = Vec::new();
    let mut i: usize = start;
    proof {
        assert(all.subrange(start as int, start as int) =~= Seq::<Seq<char>>::empty());
    }
    while i < segs.len()
        invariant
            all == seg_views(segs@),
            start <= i <= segs@.len(),
            out@ == slash_joined(all.subrange(start as int, i as int)),
        decreases segs@.len() - i,
    {
        let ghost before = out@;
        if i > start {
            out.push('/');
        }
        let seg = &segs[i];
        let mut j: usize = 0;
        let ghost mid = out@;
        while j < seg.len()
            invariant
                j <= seg@.len(),
                out@ == mid + seg@.subrange(0, j as int),
            decreases seg@.len() - j,
        {
            out.push(seg[j]);
            proof {
                assert(seg@.subrange(0, j + 1) =~= seg@.subrange(0, j as int).push(seg@[j as int]));
            }
            j = j + 1;
        }
        proof {
            let pre = all.subrange(start as int, i + 1);
            assert(seg@.subrange(0, seg@.len() as int) =~= seg@);
            assert(pre.drop_last() =~= all.subrange(start as int, i as int));
            assert(pre.last() == seg@);
            if i == start {
                assert(out@ =~= seg@);
            } else {
                assert(out@ =~= before + seq!['/'] + seg@);
            }
        }
        i = i + 1;
    }
    out
}

fn spell_from(comps: &[Vec<char>], start: usize) -> (r: String)
    requires
        start <= comps@.len(),
    ensures
        r@ == spelled(seg_views(comps@).subrange(start as int, comps@.len() as int)),
{
    let ghost sub = seg_views(comps@).subrange(start as int, comps@.len() as int);
    if start < comps.len() && chars_eq(comps[start].as_slice(), one_char('/').as_slice()) {
        let rest = slash_join_from(comps, start + 1);
        proof {
            assert(seg_views(comps@).subrange(start + 1, comps@.len() as int) =~= sub.drop_first());
        }
        let mut out = String::new();
        out.push('/');
        let tail = string_of(rest.as_slice());
        out.append(tail.as_str());
        proof {
            assert(out@ =~= seq!['/'] + rest@);
        }
        out
    } else {
        string_of(slash_join_from(comps, start).as_slice())
    }
}

/// `Path::parent`, spelled from the remaining components.
pub fn parent(s: &str) -> (r: Option<String>)
    ensures
        match r {
            Some(p) => parent_of(s@) == Some(p@),
            None => parent_of(s@) is None,
        },
{
    let mut c = components_of(s);
    let n = c.len();
    if n == 0 {
        return None;
    }
    let ghost cv = seg_views(c@);
    if chars_eq(c[n - 1].as_slice(), one_char('/').as_slice()) {
        return None;
    }
    c.pop();
    proof {
        assert(seg_views(c@) =~= cv.drop_last());
        assert(seg_views(c@).subrange(0, c@.len() as int) =~= seg_views(c@));
    }
    Some(spell_from(c.as_slice(), 0))
}

/// `Path::strip_prefix`, spelled from the remaining components.
pub fn strip_prefix(full: &str, base: &str) -> (r: Option<String>)
    ensures
        match r {
            Some(p) => stripped(full@, base@) == Some(p@),
            None => stripped(full@, base@) is None,
        },
{
    if !starts_with(full, base) {
        return None;
    }
    let f = components_of(full);
    let b = components_of(base);
    Some(spell_from(f.as_slice(), b.len()))
}

/// The file name of `path`, or an empty string when it has none.
pub fn file_label(path: &str) -> (r: String)
    ensures
        r@ == match file_name(path@) {
            Some(n) => n,
            None => Seq::empty(),
        },
{
    match file_name_of(path) {
        Some(n) => n,
        None => String::new(),
    }
}

/// The path used for `git add`: `safe` relative to the vault root, or
/// `safe` itself when it does not lie under the root.
pub fn rel_path(vault_root: &str, safe: &str) -> (r: String)
    ensures
        r@ == match stripped(safe@, vault_root@) {
            Some(p) => p,
            None => safe@,
        },
{
    match strip_prefix(safe, vault_root) {
        Some(p) => p,
        None => safe.to_owned(),
    }
}

} // verus!
