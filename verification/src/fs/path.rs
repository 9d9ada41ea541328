//! Paths as text: taking them apart, joining and normalizing them.
//!
//! A path is cut at `/` and at `.`, which are single bytes in UTF-8 and
//! never part of another character, so every piece is text again. What a
//! function gives is stated over the bytes of the path.

use vstd::prelude::*;
use vstd::string::StringSliceAdditionalSpecFns;
use vstd::utf8::{valid_utf8, valid_utf8_concat};

use crate::text::{lemma_cut_at_ascii, lemma_piece_is_utf8, lemma_str_is_utf8, piece, utf8_str};

verus! {

/// The byte `/`.
pub const SLASH: u8 = 0x2F;

/// The byte `.`.
pub const DOT: u8 = 0x2E;

/// Most components that a normalized path keeps; further ones are left out.
pub const MAX_COMPONENTS: usize = 64;

/// Index of the last `b` in `s`, or -1 when there is none.
pub open spec fn last_index(s: Seq<u8>, b: u8) -> int
    decreases s.len(),
{
    if s.len() == 0 {
        -1
    } else if s.last() == b {
        s.len() - 1
    } else {
        last_index(s.drop_last(), b)
    }
}

/// True when the path starts with `/`.
pub open spec fn absolute(s: Seq<u8>) -> bool {
    s.len() > 0 && s[0] == SLASH
}

/// What follows the last `/`; the whole path when it has none.
pub open spec fn base_name(s: Seq<u8>) -> Seq<u8> {
    s.subrange(last_index(s, SLASH) + 1, s.len() as int)
}

/// What stands before the last `/`: nothing when there is none, `/` itself
/// when it is the first byte.
pub open spec fn parent_of(s: Seq<u8>) -> Seq<u8> {
    let pos = last_index(s, SLASH);
    if pos < 0 {
        Seq::<u8>::empty()
    } else if pos == 0 {
        s.subrange(0, 1)
    } else {
        s.subrange(0, pos)
    }
}

/// What follows the last `.` of the file name, if that dot is neither the
/// first nor the last byte of the name.
pub open spec fn extension_of(s: Seq<u8>) -> Option<Seq<u8>> {
    let name = base_name(s);
    let pos = last_index(name, DOT);
    if pos > 0 && pos < name.len() - 1 {
        Some(name.subrange(pos + 1, name.len() as int))
    } else {
        None
    }
}

/// The file name without its extension: what stands before its last `.`,
/// unless that dot is its first byte.
pub open spec fn stem_of(s: Seq<u8>) -> Seq<u8> {
    let name = base_name(s);
    let pos = last_index(name, DOT);
    if pos > 0 {
        name.subrange(0, pos)
    } else {
        name
    }
}

/// The path without the slashes at its end.
pub open spec fn trimmed(s: Seq<u8>) -> Seq<u8>
    decreases s.len(),
{
    if s.len() > 0 && s.last() == SLASH {
        trimmed(s.drop_last())
    } else {
        s
    }
}

/// `base` without the slashes at its end, a `/`, and `child`.
pub open spec fn joined(base: Seq<u8>, child: Seq<u8>) -> Seq<u8> {
    trimmed(base) + seq![SLASH] + child
}

/// Index of the first `/` at or after `from`, or the length of the path.
pub open spec fn next_slash(s: Seq<u8>, from: int) -> int
    decreases s.len() - from,
{
    if from >= s.len() {
        s.len() as int
    } else if s[from] == SLASH {
        from
    } else {
        next_slash(s, from + 1)
    }
}

/// True for the component `.`.
pub open spec fn is_dot(part: Seq<u8>) -> bool {
    part.len() == 1 && part[0] == DOT
}

/// True for the component `..`.
pub open spec fn is_dot_dot(part: Seq<u8>) -> bool {
    part.len() == 2 && part[0] == DOT && part[1] == DOT
}

/// The components kept so far, after one more component of the path: an
/// empty one and `.` change nothing, `..` takes the last one away if there
/// is one, any other is added while there is room.
pub open spec fn fold_part(stack: Seq<Seq<u8>>, part: Seq<u8>) -> Seq<Seq<u8>> {
    if part.len() == 0 || is_dot(part) {
        stack
    } else if is_dot_dot(part) {
        if stack.len() > 0 {
            stack.drop_last()
        } else {
            stack
        }
    } else if stack.len() < MAX_COMPONENTS {
        stack.push(part)
    } else {
        stack
    }
}

/// The components kept after the rest of the path, from `from` on, was
/// read.
pub open spec fn fold_from(s: Seq<u8>, from: int, stack: Seq<Seq<u8>>) -> Seq<Seq<u8>>
    decreases s.len() - from,
{
    if from < 0 || from > s.len() {
        stack
    } else {
        let end = next_slash(s, from);
        let kept = fold_part(stack, s.subrange(from, end));
        if end >= s.len() || end < from {
            kept
        } else {
            fold_from(s, end + 1, kept)
        }
    }
}

/// The components of the normalized path.
pub open spec fn components(s: Seq<u8>) -> Seq<Seq<u8>> {
    fold_from(s, 0, Seq::<Seq<u8>>::empty())
}

/// The components with a `/` between each two.
pub open spec fn join_all(parts: Seq<Seq<u8>>) -> Seq<u8>
    decreases parts.len(),
{
    if parts.len() == 0 {
        Seq::<u8>::empty()
    } else if parts.len() == 1 {
        parts[0]
    } else {
        join_all(parts.drop_last()) + seq![SLASH] + parts.last()
    }
}

/// The root prefix of a path: `/` when it is absolute, else nothing.
pub open spec fn root_of(s: Seq<u8>) -> Seq<u8> {
    if absolute(s) {
        seq![SLASH]
    } else {
        Seq::<u8>::empty()
    }
}

/// The normalized path: the root if the path is absolute, then its
/// components with a `/` between each two; `/` when that is empty.
pub open spec fn normalized(s: Seq<u8>) -> Seq<u8> {
    let body = root_of(s) + join_all(components(s));
    if body.len() == 0 {
        seq![SLASH]
    } else {
        body
    }
}

/// The last index is in range, points at the byte, and nothing after it is
/// the byte.
pub proof fn lemma_last_index(s: Seq<u8>, b: u8)
    ensures
        -1 <= last_index(s, b) < s.len(),
        last_index(s, b) >= 0 ==> s[last_index(s, b)] == b,
        forall|j: int| last_index(s, b) < j < s.len() ==> s[j] != b,
    decreases s.len(),
{
    if s.len() > 0 && s.last() != b {
        lemma_last_index(s.drop_last(), b);
        assert forall|j: int| last_index(s, b) < j < s.len() implies s[j] != b by {
            if j < s.len() - 1 {
                assert(s.drop_last()[j] == s[j]);
            }
        }
    }
}

/// The next slash is at or after `from`, within the path, points at a
/// slash unless it is the end, and no slash stands before it.
pub proof fn lemma_next_slash(s: Seq<u8>, from: int)
    requires
        0 <= from <= s.len(),
    ensures
        from <= next_slash(s, from) <= s.len(),
        next_slash(s, from) < s.len() ==> s[next_slash(s, from)] == SLASH,
        forall|j: int| from <= j < next_slash(s, from) ==> s[j] != SLASH,
    decreases s.len() - from,
{
    if from < s.len() && s[from] != SLASH {
        lemma_next_slash(s, from + 1);
    }
}

proof fn lemma_trimmed(s: Seq<u8>)
    ensures
        trimmed(s).len() <= s.len(),
        trimmed(s) == s.subrange(0, trimmed(s).len() as int),
        trimmed(s).len() < s.len() ==> s[trimmed(s).len() as int] == SLASH,
        trimmed(s).len() > 0 ==> trimmed(s).last() != SLASH,
    decreases s.len(),
{
    if s.len() > 0 && s.last() == SLASH {
        lemma_trimmed(s.drop_last());
        let t = trimmed(s.drop_last());
        assert(t =~= s.subrange(0, t.len() as int));
    } else {
        assert(s =~= s.subrange(0, s.len() as int));
    }
}

proof fn lemma_slash_is_utf8()
    ensures
        valid_utf8(seq![SLASH]),
{
    let one = seq![SLASH];
    assert(one[0] == SLASH);
    assert(vstd::utf8::length_of_first_scalar(one) == 1);
    assert(vstd::utf8::pop_first_scalar(one) =~= Seq::<u8>::empty());
    reveal_with_fuel(valid_utf8, 2);
}

proof fn lemma_join_all_is_utf8(parts: Seq<Seq<u8>>)
    requires
        forall|k: int| 0 <= k < parts.len() ==> valid_utf8(#[trigger] parts[k]),
    ensures
        valid_utf8(join_all(parts)),
    decreases parts.len(),
{
    if parts.len() >= 2 {
        lemma_join_all_is_utf8(parts.drop_last());
        lemma_slash_is_utf8();
        valid_utf8_concat(join_all(parts.drop_last()), seq![SLASH]);
        valid_utf8_concat(join_all(parts.drop_last()) + seq![SLASH], parts.last());
    }
}

fn rfind(bytes: &[u8], b: u8) -> (r: Option<usize>)
    ensures
        r is None <==> last_index(bytes@, b) == -1,
        r is Some ==> r->Some_0 == last_index(bytes@, b) && r->Some_0 < bytes.len(),
{
    let mut i: usize = bytes.len();
    assert(bytes@.subrange(0, i as int) =~= bytes@);
    while i > 0
        invariant
            i <= bytes.len(),
            last_index(bytes@, b) == last_index(bytes@.subrange(0, i as int), b),
        decreases i,
    {
        if bytes[i - 1] == b {
            return Some(i - 1);
        }
        assert(bytes@.subrange(0, i as int).drop_last() =~= bytes@.subrange(0, i - 1));
        i = i - 1;
    }
    None
}

fn find_slash(bytes: &[u8], from: usize) -> (end: usize)
    requires
        from <= bytes.len(),
    ensures
        end == next_slash(bytes@, from as int),
        from <= end <= bytes.len(),
{
    let mut end: usize = from;
    while end < bytes.len() && bytes[end] != SLASH
        invariant
            from <= end <= bytes.len(),
            next_slash(bytes@, from as int) == next_slash(bytes@, end as int),
        decreases bytes.len() - end,
    {
        end = end + 1;
    }
    end
}

/// True when the path starts with `/`.
pub fn is_absolute(path: &str) -> (b: bool)
    ensures
        b == absolute(path.spec_bytes()),
{
    let bytes: &[u8] = path.as_bytes();
    bytes.len() > 0 && bytes[0] == SLASH
}

/// True when the path does not start with `/`.
pub fn is_relative(path: &str) -> (b: bool)
    ensures
        b == !absolute(path.spec_bytes()),
{
    !is_absolute(path)
}

/// The last component of the path: what follows its last `/`.
pub fn file_name<'a>(path: &'a str) -> (name: &'a str)
    ensures
        name.spec_bytes() == base_name(path.spec_bytes()),
{
    let bytes: &[u8] = path.as_bytes();
    proof {
        lemma_last_index(bytes@, SLASH);
    }
    match rfind(bytes, SLASH) {
        Some(pos) => piece(path, pos + 1, bytes.len()),
        None => {
            let whole = piece(path, 0, bytes.len());
            assert(bytes@.subrange(0, bytes@.len() as int) =~= base_name(bytes@));
            whole
        },
    }
}

/// The directory that holds the path: what stands before its last `/`.
pub fn parent<'a>(path: &'a str) -> (dir: &'a str)
    ensures
        dir.spec_bytes() == parent_of(path.spec_bytes()),
{
    let bytes: &[u8] = path.as_bytes();
    proof {
        lemma_last_index(bytes@, SLASH);
    }
    match rfind(bytes, SLASH) {
        Some(pos) => if pos == 0 {
            piece(path, 0, 1)
        } else {
            piece(path, 0, pos)
        },
        None => {
            let none = piece(path, 0, 0);
            assert(bytes@.subrange(0, 0) =~= Seq::<u8>::empty());
            none
        },
    }
}

/// The extension of the file name, without its dot.
pub fn extension<'a>(path: &'a str) -> (ext: Option<&'a str>)
    ensures
        ext is Some <==> extension_of(path.spec_bytes()) is Some,
        ext is Some ==> ext->Some_0.spec_bytes() == extension_of(path.spec_bytes())->Some_0,
{
    let name: &'a str = file_name(path);
    let bytes: &[u8] = name.as_bytes();
    proof {
        lemma_last_index(bytes@, DOT);
    }
    match rfind(bytes, DOT) {
        Some(pos) => if pos > 0 && pos < bytes.len() - 1 {
            Some(piece(name, pos + 1, bytes.len()))
        } else {
            None
        },
        None => None,
    }
}

/// The file name without its extension.
pub fn stem<'a>(path: &'a str) -> (stem: &'a str)
    ensures
        stem.spec_bytes() == stem_of(path.spec_bytes()),
{
    let name: &'a str = file_name(path);
    let bytes: &[u8] = name.as_bytes();
    proof {
        lemma_last_index(bytes@, DOT);
    }
    match rfind(bytes, DOT) {
        Some(pos) => if pos > 0 {
            piece(name, 0, pos)
        } else {
            name
        },
        None => name,
    }
}

/// Copies `src[from..to]` to `buf`, starting at `at`.
fn copy_at(buf: &mut [u8], at: usize, src: &[u8], from: usize, to: usize)
    requires
        from <= to <= src.len(),
        at + (to - from) <= old(buf)@.len(),
    ensures
        final(buf)@ == old(buf)@.subrange(0, at as int) + src@.subrange(from as int, to as int)
            + old(buf)@.subrange(at + (to - from), old(buf)@.len() as int),
{
    let n: usize = to - from;
    let mut i: usize = 0;
    while i < n
        invariant
            i <= n,
            n == to - from,
            from <= to <= src.len(),
            at + n <= buf.len(),
            buf@.len() == old(buf)@.len(),
            forall|k: int| 0 <= k < at ==> buf@[k] == old(buf)@[k],
            forall|k: int| at <= k < at + i ==> buf@[k] == src@[from + (k - at)],
            forall|k: int| at + i <= k < buf@.len() ==> buf@[k] == old(buf)@[k],
        decreases n - i,
    {
        buf[at + i] = src[from + i];
        i = i + 1;
    }
    assert(buf@ =~= old(buf)@.subrange(0, at as int) + src@.subrange(from as int, to as int) + old(
        buf,
    )@.subrange(at + (to - from), old(buf)@.len() as int));
}

/// The first `n` bytes of `s`, or all of it when it is shorter.
pub open spec fn head(s: Seq<u8>, n: int) -> Seq<u8> {
    if s.len() <= n {
        s
    } else {
        s.subrange(0, n)
    }
}

/// Joins two paths in `buf`, and gives the result as text.
///
/// An absolute `child` stands for itself: as much of it as `buf` holds is
/// copied, and the result is nothing if the copy is not text, which
/// happens when a character was cut. Otherwise the result is `base`
/// without the slashes at its end, a `/`, and `child`; when `buf` is too
/// short for it the result is nothing and `buf` stays as it was.
pub fn join<'a>(base: &str, child: &str, buf: &'a mut [u8]) -> (r: Option<&'a str>)
    ensures
        absolute(child.spec_bytes()) ==> {
            let copy = head(child.spec_bytes(), old(buf)@.len() as int);
            &&& final(buf)@ == copy + old(buf)@.subrange(copy.len() as int, old(buf)@.len() as int)
            &&& r is Some <==> valid_utf8(copy)
            &&& r is Some ==> r->Some_0.spec_bytes() == copy
        },
        !absolute(child.spec_bytes()) ==> {
            let all = joined(base.spec_bytes(), child.spec_bytes());
            &&& all.len() > old(buf)@.len() ==> r is None && final(buf)@ == old(buf)@
            &&& all.len() <= old(buf)@.len() ==> r is Some && r->Some_0.spec_bytes() == all
                && final(buf)@ == all + old(buf)@.subrange(
                all.len() as int,
                old(buf)@.len() as int,
            )
        },
{
    let child_bytes: &[u8] = child.as_bytes();
    let cap: usize = buf.len();
    if is_absolute(child) {
        let len: usize = if child_bytes.len() < cap {
            child_bytes.len()
        } else {
            cap
        };
        copy_at(buf, 0, child_bytes, 0, len);
        let shared: &'a [u8] = buf;
        assert(shared@.subrange(0, len as int) =~= head(child.spec_bytes(), cap as int));
        assert(shared@ =~= head(child.spec_bytes(), cap as int) + old(buf)@.subrange(
            len as int,
            cap as int,
        ));
        return utf8_str(vstd::slice::slice_subrange(shared, 0, len));
    }
    let base_bytes: &[u8] = base.as_bytes();
    let mut base_len: usize = base_bytes.len();
    assert(base_bytes@.subrange(0, base_len as int) =~= base_bytes@);
    while base_len > 0 && base_bytes[base_len - 1] == SLASH
        invariant
            base_len <= base_bytes.len(),
            trimmed(base_bytes@) == trimmed(base_bytes@.subrange(0, base_len as int)),
        decreases base_len,
    {
        assert(base_bytes@.subrange(0, base_len as int).drop_last() =~= base_bytes@.subrange(
            0,
            base_len - 1,
        ));
        base_len = base_len - 1;
    }
    proof {
        lemma_trimmed(base_bytes@);
        assert(trimmed(base_bytes@) =~= base_bytes@.subrange(0, base_len as int));
    }
    if base_len >= cap || child_bytes.len() > cap - base_len - 1 {
        return None;
    }
    let total: usize = base_len + 1 + child_bytes.len();
    copy_at(buf, 0, base_bytes, 0, base_len);
    buf[base_len] = SLASH;
    copy_at(buf, base_len + 1, child_bytes, 0, child_bytes.len());
    let shared: &'a [u8] = buf;
    proof {
        let all = joined(base.spec_bytes(), child.spec_bytes());
        assert(child_bytes@.subrange(0, child_bytes@.len() as int) =~= child_bytes@);
        assert(shared@.subrange(0, total as int) =~= all);
        assert(shared@ =~= all + old(buf)@.subrange(total as int, cap as int));
        lemma_str_is_utf8(base);
        lemma_str_is_utf8(child);
        if base_len < base_bytes@.len() {
            lemma_cut_at_ascii(base_bytes@, base_len as int);
        }
        lemma_slash_is_utf8();
        valid_utf8_concat(trimmed(base_bytes@), seq![SLASH]);
        valid_utf8_concat(trimmed(base_bytes@) + seq![SLASH], child_bytes@);
    }
    utf8_str(vstd::slice::slice_subrange(shared, 0, total))
}

/// The pieces of `s` that the ranges name.
pub open spec fn parts_of(ranges: Seq<(usize, usize)>, s: Seq<u8>) -> Seq<Seq<u8>> {
    Seq::new(ranges.len(), |k: int| s.subrange(ranges[k].0 as int, ranges[k].1 as int))
}

/// True when every range is a piece of `s` between two cuts that are an
/// end of `s` or stand at a slash.
pub open spec fn ranges_ok(ranges: Seq<(usize, usize)>, s: Seq<u8>) -> bool {
    forall|k: int|
        0 <= k < ranges.len() ==> {
            let r = #[trigger] ranges[k];
            &&& r.0 <= r.1 <= s.len()
            &&& (r.0 == 0 || s[r.0 - 1] == SLASH)
            &&& (r.1 == s.len() || s[r.1 as int] == SLASH)
        }
}

proof fn lemma_parts_are_utf8(ranges: Seq<(usize, usize)>, s: Seq<u8>)
    requires
        valid_utf8(s),
        ranges_ok(ranges, s),
    ensures
        forall|k: int| 0 <= k < ranges.len() ==> valid_utf8(#[trigger] parts_of(ranges, s)[k]),
{
    assert forall|k: int| 0 <= k < ranges.len() implies valid_utf8(
        #[trigger] parts_of(ranges, s)[k],
    ) by {
        let r = ranges[k];
        lemma_piece_is_utf8(s, r.0 as int, r.1 as int);
    }
}

/// Normalizes a path in `buf`, and gives the result as text: empty
/// components and `.` are left out, `..` takes back the component before
/// it, and of more than `MAX_COMPONENTS` components the further ones are
/// left out. A path without components normalizes to `/`. When `buf` is too
/// short for the result, the result is nothing and `buf` stays as it was.
pub fn normalize<'a>(path: &str, buf: &'a mut [u8]) -> (r: Option<&'a str>)
    ensures
        normalized(path.spec_bytes()).len() > old(buf)@.len() ==> r is None && final(buf)@ == old(
            buf,
        )@,
        normalized(path.spec_bytes()).len() <= old(buf)@.len() ==> r is Some
            && r->Some_0.spec_bytes() == normalized(path.spec_bytes()) && final(buf)@
            == normalized(path.spec_bytes()) + old(buf)@.subrange(
            normalized(path.spec_bytes()).len() as int,
            old(buf)@.len() as int,
        ),
{
    let bytes: &[u8] = path.as_bytes();
    let n: usize = bytes.len();
    let mut stack: Vec<(usize, usize)> = Vec::new();
    let mut from: usize = 0;
    let mut going: bool = true;
    assert(parts_of(stack@, bytes@) =~= Seq::<Seq<u8>>::empty());
    while going
        invariant
            n == bytes.len(),
            from <= n,
            stack.len() <= MAX_COMPONENTS,
            ranges_ok(stack@, bytes@),
            from == 0 || bytes@[from - 1] == SLASH,
            going ==> fold_from(bytes@, from as int, parts_of(stack@, bytes@)) == components(
                bytes@,
            ),
            !going ==> parts_of(stack@, bytes@) == components(bytes@),
        decreases
                (if going {
                    n - from + 1
                } else {
                    0
                }),
    {
        let end: usize = find_slash(bytes, from);
        proof {
            lemma_next_slash(bytes@, from as int);
        }
        let len: usize = end - from;
        let ghost before = stack@;
        let ghost part = bytes@.subrange(from as int, end as int);
        if len == 0 || (len == 1 && bytes[from] == DOT) {
            assert(part.len() == 0 || is_dot(part));
        } else if len == 2 && bytes[from] == DOT && bytes[from + 1] == DOT {
            assert(is_dot_dot(part));
            if stack.len() > 0 {
                stack.pop();
                assert(parts_of(stack@, bytes@) =~= parts_of(before, bytes@).drop_last());
            }
        } else if stack.len() < MAX_COMPONENTS {
            assert(!is_dot(part) && !is_dot_dot(part)) by {
                assert(part[0] == bytes@[from as int]);
                if len == 2 {
                    assert(part[1] == bytes@[from + 1]);
                }
            }
            stack.push((from, end));
            assert(parts_of(stack@, bytes@) =~= parts_of(before, bytes@).push(part));
        } else {
            assert(!is_dot(part) && !is_dot_dot(part)) by {
                assert(part[0] == bytes@[from as int]);
                if len == 2 {
                    assert(part[1] == bytes@[from + 1]);
                }
            }
        }
        assert(parts_of(stack@, bytes@) == fold_part(parts_of(before, bytes@), part));
        if end >= n {
            going = false;
        } else {
            from = end + 1;
        }
    }
    let mut out: Vec<u8> = Vec::new();
    if n > 0 && bytes[0] == SLASH {
        out.push(SLASH);
    }
    let ghost parts = parts_of(stack@, bytes@);
    assert(out@ =~= root_of(bytes@) + join_all(parts.subrange(0, 0)));
    let mut k: usize = 0;
    while k < stack.len()
        invariant
            k <= stack.len(),
            n == bytes.len(),
            ranges_ok(stack@, bytes@),
            parts == parts_of(stack@, bytes@),
            out@ == root_of(bytes@) + join_all(parts.subrange(0, k as int)),
        decreases stack.len() - k,
    {
        let (a, b) = stack[k];
        if k > 0 {
            out.push(SLASH);
        }
        crate::encoding::push_bytes(&mut out, vstd::slice::slice_subrange(bytes, a, b));
        proof {
            let upto = parts.subrange(0, k + 1);
            assert(upto.drop_last() =~= parts.subrange(0, k as int));
            assert(upto.last() == bytes@.subrange(a as int, b as int));
            if k == 0 {
                assert(join_all(parts.subrange(0, 0)) =~= Seq::<u8>::empty());
            }
            assert(out@ =~= root_of(bytes@) + join_all(upto));
        }
        k = k + 1;
    }
    proof {
        assert(parts.subrange(0, stack@.len() as int) =~= parts);
        lemma_str_is_utf8(path);
        lemma_parts_are_utf8(stack@, bytes@);
        lemma_join_all_is_utf8(parts);
        lemma_slash_is_utf8();
        assert(valid_utf8(root_of(bytes@))) by {
            reveal_with_fuel(valid_utf8, 1);
        }
        valid_utf8_concat(root_of(bytes@), join_all(parts));
    }
    if out.len() == 0 {
        out.push(SLASH);
        assert(out@ =~= seq![SLASH]);
    }
    assert(out@ == normalized(bytes@));
    let total: usize = out.len();
    if total > buf.len() {
        return None;
    }
    copy_at(buf, 0, out.as_slice(), 0, total);
    let shared: &'a [u8] = buf;
    proof {
        assert(out@.subrange(0, total as int) =~= out@);
        assert(shared@.subrange(0, total as int) =~= out@);
        assert(shared@ =~= out@ + old(buf)@.subrange(total as int, old(buf)@.len() as int));
    }
    utf8_str(vstd::slice::slice_subrange(shared, 0, total))
}

} // verus!
