//! The formula session: compile a formula once into a library, then execute it
//! many times. This module holds the session handle and every decision of
//! compile / execute; the boundary layer does the file system, process and
//! library-loading work those decisions call for.

use vstd::prelude::*;
use crate::buffer::{copy_front, overwrite_front};
use crate::err::{err, ErrorSlot, RTORCH_API_E_PARAM, RTORCH_API_E_PARSE, RTORCH_API_OK};
use crate::text::{chars_of, decimal, eq_ascii_case_insensitive, eq_ignore_ascii_case, range_eq_ignore_ascii_case, to_decimal};

verus! {

/// A compiled session: the library it runs, and whether the session built
/// that library itself (and so removes it when freed).
pub struct OpaqueSession {
    dll: String,
    owns_dll: bool,
}

impl OpaqueSession {
    /// The library path.
    pub closed spec fn spec_dll(&self) -> Seq<char> {
        self.dll@
    }

    /// Whether the session built (and owns) the library.
    pub closed spec fn spec_owns_dll(&self) -> bool {
        self.owns_dll
    }

    /// The library path.
    pub fn dll(&self) -> (p: &String)
        ensures
            p@ == self.spec_dll(),
    {
        &self.dll
    }

    /// Whether the session owns the library (and must remove it when freed).
    pub fn owns_dll(&self) -> (b: bool)
        ensures
            b == self.spec_owns_dll(),
    {
        self.owns_dll
    }
}

/// A name that is one plain path component on every platform: it is not
/// empty, not `.` or `..`, and holds no `/`, `\` or `:`.
pub open spec fn is_plain_file_name(path: Seq<char>) -> bool {
    &&& path.len() > 0
    &&& path != "."@
    &&& path != ".."@
    &&& !path.contains('/')
    &&& !path.contains('\\')
    &&& !path.contains(':')
}

/// `path[k]` is the last `/` of `path`.
pub open spec fn is_last_slash(path: Seq<char>, k: int) -> bool {
    &&& 0 <= k < path.len()
    &&& path[k] == '/'
    &&& forall|j: int| k < j < path.len() ==> path[j] != '/'
}

/// The part of `path` after its last `/` (all of it when there is none).
pub open spec fn last_segment(path: Seq<char>) -> Seq<char> {
    if exists|k: int| is_last_slash(path, k) {
        let k = choose|k: int| is_last_slash(path, k);
        path.subrange(k + 1, path.len() as int)
    } else {
        path
    }
}

/// A path whose file name is the same on every platform: `/` is its only
/// separator (it holds no `\`), it has no drive or network prefix (no `:`, and
/// it does not start with `//`), and the part after its last `/` is a plain
/// name (not empty, `.` or `..`), which is then its file name.
pub open spec fn has_plain_file_name(path: Seq<char>) -> bool {
    &&& !path.contains('\\')
    &&& !path.contains(':')
    &&& !(path.len() >= 2 && path[0] == '/' && path[1] == '/')
    &&& is_plain_file_name(last_segment(path))
}

/// `c` separates path components on some platform: `/` everywhere, `\` on
/// Windows.
pub open spec fn is_separator(c: char) -> bool {
    c == '/' || c == '\\'
}

/// `path[k]` is the last `/` or `\` of `path`.
pub open spec fn is_last_separator(path: Seq<char>, k: int) -> bool {
    &&& 0 <= k < path.len()
    &&& is_separator(path[k])
    &&& forall|j: int| k < j < path.len() ==> !is_separator(path[j])
}

/// The part of `path` after its last `/` or `\` (all of it when there is none).
pub open spec fn last_part(path: Seq<char>) -> Seq<char> {
    if exists|k: int| is_last_separator(path, k) {
        let k = choose|k: int| is_last_separator(path, k);
        path.subrange(k + 1, path.len() as int)
    } else {
        path
    }
}

/// A path whose extension is the same on every platform, whether `\`
/// separates components or not: it has no drive or network prefix (no `:`,
/// and it does not start with two separators), and the part after its last
/// `/` or `\` is not `..` and has a `.` after its first character. Where `\`
/// is no separator the file name is longer, but it ends in that part, and its
/// last `.` is the same one.
pub open spec fn has_portable_extension(path: Seq<char>) -> bool {
    &&& !path.contains(':')
    &&& !(path.len() >= 2 && is_separator(path[0]) && is_separator(path[1]))
    &&& last_part(path) != ".."@
    &&& exists|k: int| is_last_dot(last_part(path), k)
}

/// `path` starts with a Windows drive prefix: an ASCII letter and `:`.
pub open spec fn starts_with_drive(path: Seq<char>) -> bool {
    path.len() >= 2 && crate::text::is_ascii_letter(path[0]) && path[1] == ':'
}

/// The last component of `path` as Windows reads it: the part after its last
/// `/` or `\`, or, in a path with neither, the part after a drive prefix.
pub open spec fn file_part(path: Seq<char>) -> Seq<char> {
    if !(exists|k: int| is_last_separator(path, k)) && starts_with_drive(path) {
        path.subrange(2, path.len() as int)
    } else {
        last_part(path)
    }
}

/// A path whose extension is the same on every platform, drive prefixes
/// included: it does not start with two separators (no network or device
/// prefix), and its last component as Windows reads it ([`file_part`]) is not
/// `..` and has a `.` after its first character. Where `\` is no separator
/// and `C:` no prefix, the file name is longer, but it ends in that part, and
/// its last `.` is the same one.
pub open spec fn has_portable_file_part(path: Seq<char>) -> bool {
    &&& !(path.len() >= 2 && is_separator(path[0]) && is_separator(path[1]))
    &&& file_part(path) != ".."@
    &&& exists|k: int| is_last_dot(file_part(path), k)
}

/// The extension of the file name `name`: the part after its last `.`, or none
/// when it has no `.` or its only `.` is its first character.
pub open spec fn file_name_extension(name: Seq<char>) -> Option<Seq<char>> {
    if exists|k: int| is_last_dot(name, k) {
        let k = choose|k: int| is_last_dot(name, k);
        Some(name.subrange(k + 1, name.len() as int))
    } else {
        None
    }
}

/// `name[k]` is the last `.` of `name`, and not its first character.
pub open spec fn is_last_dot(name: Seq<char>, k: int) -> bool {
    &&& 0 < k < name.len()
    &&& name[k] == '.'
    &&& forall|j: int| k < j < name.len() ==> name[j] != '.'
}

/// `std::path::Path::extension` (of the path `path` names), as text.
///
/// Claimed from its documentation: the extension is the part of the path's
/// file name after its last `.`, so it holds no `.`; a path without any `.`
/// has none; and for a path whose file name is the part after its last `/`
/// on every platform (see [`has_plain_file_name`]) it is that name's
/// extension, with no extension for a name whose only `.` is its first
/// character; and for a path with `\` in it whose extension does not depend
/// on whether `\` separates components (see [`has_portable_extension`]), it
/// is the extension of the part after the last separator; the same holds with
/// a drive prefix (`C:`), whose letters and `:` Windows reads as no part of the
/// file name (see [`has_portable_file_part`]). In the remaining paths (network
/// or device prefixes, or a last part whose extension changes when `\`
/// separates components or `C:` is a prefix) the answer depends on the
/// platform, and is left unsaid.
#[verifier::external_body]
fn path_extension(path: &str) -> (ext: Option<String>)
    ensures
        ext matches Some(e) ==> !e@.contains('.'),
        !path@.contains('.') ==> ext is None,
        has_plain_file_name(path@) ==> opt_view(ext) == file_name_extension(last_segment(path@)),
        has_portable_extension(path@) ==> opt_view(ext) == file_name_extension(last_part(path@)),
        has_portable_file_part(path@) ==> opt_view(ext) == file_name_extension(file_part(path@)),
{
    let ext = std::path::Path::new(path).extension()?.to_str()?;
    Some(ext.to_owned())
}

/// A file name extension that names a prebuilt library: `dll`, in any ASCII case.
pub open spec fn is_dll_extension(ext: Option<Seq<char>>) -> bool {
    ext matches Some(e) && eq_ascii_case_insensitive(e, "dll"@)
}

/// Whether a file name extension (`None` for a path without one) names a
/// prebuilt library.
pub fn is_dll_ext(ext: Option<&str>) -> (b: bool)
    ensures
        b == is_dll_extension(match ext { Some(e) => Some(e@), None => None }),
{
    match ext {
        Some(e) => eq_ignore_ascii_case(e, "dll"),
        None => false,
    }
}

/// Whether `path` names a prebuilt library (its extension is `dll`, in any ASCII
/// case) rather than a formula source to compile.
pub fn is_dll(path: &str) -> (b: bool)
    ensures
        b ==> path@.contains('.'),
        has_plain_file_name(path@) ==> b == is_dll_extension(file_name_extension(last_segment(path@))),
        has_portable_extension(path@) ==> b == is_dll_extension(file_name_extension(last_part(path@))),
        has_portable_file_part(path@) ==> b == is_dll_extension(file_name_extension(file_part(path@))),
{
    match path_extension(path) {
        Some(e) => is_dll_ext(Some(e.as_str())),
        None => false,
    }
}

/// The extension test ignores ASCII case: `dll`, `DLL` and `Dll` all name a
/// prebuilt library, and nothing else of three letters does.
pub proof fn dll_extension_ignores_case(a: Seq<char>, b: Seq<char>)
    requires
        eq_ascii_case_insensitive(a, b),
    ensures
        is_dll_extension(Some(a)) == is_dll_extension(Some(b)),
{
    if is_dll_extension(Some(a)) {
        assert forall|i: int| 0 <= i < b.len() implies #[trigger] crate::text::ascii_lower(b[i])
            == crate::text::ascii_lower("dll"@[i]) by {
            assert(crate::text::ascii_lower(a[i]) == crate::text::ascii_lower(b[i]));
        }
    }
    if is_dll_extension(Some(b)) {
        assert forall|i: int| 0 <= i < a.len() implies #[trigger] crate::text::ascii_lower(a[i])
            == crate::text::ascii_lower("dll"@[i]) by {
            assert(crate::text::ascii_lower(a[i]) == crate::text::ascii_lower(b[i]));
        }
    }
}

/// What `rtorch_api_session_compile` asks the boundary layer to do.
pub struct CompileRequest {
    /// The formula source path, or the prebuilt library path.
    pub source: String,
    /// The extra include directory, if a non-empty one was given.
    pub ref_dir: Option<String>,
    /// `source` is a prebuilt library: it is only resolved to an absolute path,
    /// not compiled.
    pub prebuilt: bool,
}

/// The text of an optional string.
pub open spec fn opt_view(s: Option<String>) -> Option<Seq<char>> {
    match s {
        Some(s) => Some(s@),
        None => None,
    }
}

/// The first step of `rtorch_api_session_compile`: refuse a null formula path
/// (`None`), drop an empty include directory, and decide whether the path is a
/// prebuilt library or a source to compile.
pub fn session_compile_request(formula_src: Option<&str>, ref_dir: Option<&str>, slot: &mut ErrorSlot)
    -> (req: Option<CompileRequest>)
    ensures
        formula_src is None ==> req is None && final(slot)@ == "rtorch_api: null formula_src"@,
        formula_src matches Some(src) ==> {
            &&& req matches Some(r)
            &&& r.source@ == src@
            &&& opt_view(r.ref_dir) == match ref_dir {
                Some(d) => if d@.len() == 0 { None } else { Some(d@) },
                None => None,
            }
            &&& r.prebuilt ==> src@.contains('.')
            &&& has_plain_file_name(src@) ==> r.prebuilt == is_dll_extension(
                file_name_extension(last_segment(src@)),
            )
            &&& has_portable_extension(src@) ==> r.prebuilt == is_dll_extension(
                file_name_extension(last_part(src@)),
            )
            &&& has_portable_file_part(src@) ==> r.prebuilt == is_dll_extension(
                file_name_extension(file_part(src@)),
            )
            &&& final(slot)@ == old(slot)@
        },
{
    let src = match formula_src {
        Some(s) => s,
        None => {
            err(slot, RTORCH_API_E_PARAM, "rtorch_api: null formula_src");
            return None;
        },
    };
    let rd = match ref_dir {
        Some(d) => if d.is_empty() { None } else { Some(d.to_owned()) },
        None => None,
    };
    Some(CompileRequest { source: src.to_owned(), ref_dir: rd, prebuilt: is_dll(src) })
}

/// The second step of `rtorch_api_session_compile`: `built` is the boundary
/// layer's answer to the request, the absolute library path (for a prebuilt
/// library, or a successful compile into the session's own library) or the
/// reason the compile failed. A failure is `E_PARSE` with the message
/// `"rtorch_api: compile failed: {reason}"`.
pub fn session_compile_finish(req: &CompileRequest, built: Result<String, String>, slot: &mut ErrorSlot)
    -> (s: Option<OpaqueSession>)
    requires
        req.prebuilt ==> built is Ok,
    ensures
        built matches Ok(p) ==> {
            &&& s matches Some(s) && s.spec_dll() == p@ && s.spec_owns_dll() == !req.prebuilt
            &&& final(slot)@ == old(slot)@
        },
        built matches Err(e) ==> s is None && final(slot)@ == "rtorch_api: compile failed: "@ + e@,
{
    match built {
        Ok(p) => Some(OpaqueSession { dll: p, owns_dll: !req.prebuilt }),
        Err(e) => {
            let mut msg = String::from_str("rtorch_api: compile failed: ");
            msg.append(e.as_str());
            err(slot, RTORCH_API_E_PARSE, msg.as_str());
            None
        },
    }
}

/// The file name of the library a session compiles into: unique per process
/// (`pid`) and per session (`session_id`), so concurrent sessions never clash.
pub open spec fn session_dll_file_name(pid: nat, session_id: nat) -> Seq<char> {
    "rtorch_api_rt_"@ + decimal(pid) + "_"@ + decimal(session_id) + ".dll"@
}

/// The file name of a session's own library.
pub fn session_dll_name(pid: u32, session_id: u64) -> (name: String)
    ensures
        name@ == session_dll_file_name(pid as nat, session_id as nat),
{
    let mut name = String::from_str("rtorch_api_rt_");
    let p = to_decimal(pid as u64);
    name.append(p.as_str());
    name.append("_");
    let s = to_decimal(session_id);
    name.append(s.as_str());
    name.append(".dll");
    name
}

/// `a + "_" + b + ".dll"` determines `a` and `b` when both are decimal renderings.
proof fn lemma_split_at_underscore(a1: nat, b1: nat, a2: nat, b2: nat)
    requires
        decimal(a1) + "_"@ + decimal(b1) + ".dll"@ == decimal(a2) + "_"@ + decimal(b2) + ".dll"@,
    ensures
        a1 == a2,
        b1 == b2,
{
    reveal_strlit("_");
    reveal_strlit(".dll");
    crate::text::decimal_digits_and_value(a1);
    crate::text::decimal_digits_and_value(a2);
    let x = decimal(a1) + "_"@ + decimal(b1) + ".dll"@;
    let y = decimal(a2) + "_"@ + decimal(b2) + ".dll"@;
    let l1 = decimal(a1).len() as int;
    let l2 = decimal(a2).len() as int;
    if l1 < l2 {
        assert(x[l1] == '_');
        assert(y[l1] == decimal(a2)[l1]);
        assert(48 <= decimal(a2)[l1] as int <= 57);
        assert(false);
    }
    if l2 < l1 {
        assert(y[l2] == '_');
        assert(x[l2] == decimal(a1)[l2]);
        assert(48 <= decimal(a1)[l2] as int <= 57);
        assert(false);
    }
    assert(decimal(a1) =~= x.subrange(0, l1));
    assert(decimal(a2) =~= y.subrange(0, l2));
    crate::text::decimal_injective(a1, a2);
    let lb1 = decimal(b1).len() as int;
    let lb2 = decimal(b2).len() as int;
    assert(x.len() == l1 + 1 + lb1 + 4);
    assert(y.len() == l2 + 1 + lb2 + 4);
    assert(decimal(b1) =~= x.subrange(l1 + 1, l1 + 1 + lb1));
    assert(decimal(b2) =~= y.subrange(l2 + 1, l2 + 1 + lb2));
    crate::text::decimal_injective(b1, b2);
}

/// Two sessions never compile into the same file: different process ids or
/// different session ids give different library names.
pub proof fn session_dll_names_differ(pid1: nat, id1: nat, pid2: nat, id2: nat)
    requires
        pid1 != pid2 || id1 != id2,
    ensures
        session_dll_file_name(pid1, id1) != session_dll_file_name(pid2, id2),
{
    let prefix = "rtorch_api_rt_"@;
    let rest1 = decimal(pid1) + "_"@ + decimal(id1) + ".dll"@;
    let rest2 = decimal(pid2) + "_"@ + decimal(id2) + ".dll"@;
    if session_dll_file_name(pid1, id1) == session_dll_file_name(pid2, id2) {
        assert(session_dll_file_name(pid1, id1) =~= prefix + rest1);
        assert(session_dll_file_name(pid2, id2) =~= prefix + rest2);
        assert(rest1 =~= (prefix + rest1).subrange(prefix.len() as int, (prefix + rest1).len() as int));
        assert(rest2 =~= (prefix + rest2).subrange(prefix.len() as int, (prefix + rest2).len() as int));
        lemma_split_at_underscore(pid1, id1, pid2, id2);
    }
}

/// The compiler flags a formula is built with (those of RTorch's own pipeline).
pub open spec fn compile_flags() -> Seq<Seq<char>> {
    seq![
        "-shared"@, "-fPIC"@, "-O3"@, "-std=c++17"@, "-march=native"@, "-ffast-math"@,
        "-funroll-loops"@, "-static"@, "-static-libgcc"@, "-static-libstdc++"@,
    ]
}

/// The compiler's arguments: the flags, the formula, an include of the
/// formula's directory and of the extra directory (each if there is one), and
/// the output library.
pub open spec fn compile_arg_list(
    formula: Seq<char>,
    formula_dir: Option<Seq<char>>,
    ref_dir: Option<Seq<char>>,
    out_dll: Seq<char>,
) -> Seq<Seq<char>> {
    compile_flags().push(formula) + match formula_dir {
        Some(d) => seq!["-I"@, d],
        None => Seq::empty(),
    } + match ref_dir {
        Some(d) => seq!["-I"@, d],
        None => Seq::empty(),
    } + seq!["-o"@, out_dll]
}

fn push_str(v: &mut Vec<String>, s: &str)
    ensures
        final(v)@.len() == old(v)@.len() + 1,
        forall|i: int| 0 <= i < old(v)@.len() ==> final(v)@[i] == old(v)@[i],
        final(v)@[old(v)@.len() as int]@ == s@,
{
    v.push(s.to_owned());
}

/// The views of a list of strings.
pub open spec fn views(v: Seq<String>) -> Seq<Seq<char>> {
    v.map_values(|s: String| s@)
}

/// The compiler's arguments for one formula (see [`compile_arg_list`]).
pub fn compile_args(formula: &str, formula_dir: Option<&str>, ref_dir: Option<&str>, out_dll: &str)
    -> (args: Vec<String>)
    ensures
        views(args@) == compile_arg_list(
            formula@,
            match formula_dir { Some(d) => Some(d@), None => None },
            match ref_dir { Some(d) => Some(d@), None => None },
            out_dll@,
        ),
{
    let mut args: Vec<String> = Vec::new();
    push_str(&mut args, "-shared");
    push_str(&mut args, "-fPIC");
    push_str(&mut args, "-O3");
    push_str(&mut args, "-std=c++17");
    push_str(&mut args, "-march=native");
    push_str(&mut args, "-ffast-math");
    push_str(&mut args, "-funroll-loops");
    push_str(&mut args, "-static");
    push_str(&mut args, "-static-libgcc");
    push_str(&mut args, "-static-libstdc++");
    push_str(&mut args, formula);
    let ghost head = args@;
    if let Some(d) = formula_dir {
        push_str(&mut args, "-I");
        push_str(&mut args, d);
    }
    let ghost mid = args@;
    if let Some(d) = ref_dir {
        push_str(&mut args, "-I");
        push_str(&mut args, d);
    }
    let ghost tail = args@;
    push_str(&mut args, "-o");
    push_str(&mut args, out_dll);
    let ghost fd = match formula_dir { Some(d) => Some(d@), None => None };
    let ghost rd = match ref_dir { Some(d) => Some(d@), None => None };
    assert(views(head) =~= compile_flags().push(formula@));
    assert(views(mid) =~= views(head) + match fd {
        Some(d) => seq!["-I"@, d],
        None => Seq::<Seq<char>>::empty(),
    });
    assert(views(tail) =~= views(mid) + match rd {
        Some(d) => seq!["-I"@, d],
        None => Seq::<Seq<char>>::empty(),
    });
    assert(views(args@) =~= views(tail) + seq!["-o"@, out_dll@]);
    args
}

/// `path[lo..hi]` is one entry of the `;`-separated list `path`.
pub open spec fn is_path_entry(path: Seq<char>, lo: int, hi: int) -> bool {
    &&& 0 <= lo <= hi <= path.len()
    &&& lo == 0 || path[lo - 1] == ';'
    &&& hi == path.len() || path[hi] == ';'
    &&& forall|k: int| lo <= k < hi ==> path[k] != ';'
}

/// One entry of the `;`-separated search list `path` is `dir`, up to ASCII case.
pub open spec fn path_lists_dir(path: Seq<char>, dir: Seq<char>) -> bool {
    exists|lo: int, hi: int|
        is_path_entry(path, lo, hi) && eq_ascii_case_insensitive(#[trigger] path.subrange(lo, hi), dir)
}

/// An entry of `path` that ends at or after `lo`, where `lo` starts an entry
/// and no `;` stands in `lo..hi`, is the entry `lo..hi` itself.
proof fn lemma_entry_is_current(path: Seq<char>, lo: int, hi: int, a: int, b: int)
    requires
        0 <= lo <= hi <= path.len(),
        lo == 0 || path[lo - 1] == ';',
        forall|k: int| lo <= k < hi ==> path[k] != ';',
        hi == path.len() || path[hi] == ';',
        is_path_entry(path, a, b),
        b >= lo,
        b <= hi,
    ensures
        a == lo && b == hi,
{
    if a < lo {
        assert(path[lo - 1] == ';');
    }
    if a > lo {
        assert(path[a - 1] == ';');
    }
    if b < hi {
        assert(path[b] == ';');
    }
}

/// When `lo..hi` is an entry closed by a `;`, it is the only entry that ends
/// in `lo..=hi`.
proof fn lemma_entries_before(path: Seq<char>, lo: int, hi: int)
    requires
        0 <= lo <= hi < path.len(),
        lo == 0 || path[lo - 1] == ';',
        forall|k: int| lo <= k < hi ==> path[k] != ';',
        path[hi] == ';',
    ensures
        forall|a: int, b: int| is_path_entry(path, a, b) && lo <= b < hi + 1 ==> a == lo && b == hi,
{
    assert forall|a: int, b: int| is_path_entry(path, a, b) && lo <= b < hi + 1 implies a == lo && b == hi by {
        lemma_entry_is_current(path, lo, hi, a, b);
    }
}

/// The search list (`PATH`) with the compiler's directory in front, or `None`
/// when the list already names that directory (up to ASCII case), so the
/// compiled library can find the compiler's runtime libraries.
pub fn path_with_dir(path: &str, dir: &str) -> (new_path: Option<String>)
    ensures
        path_lists_dir(path@, dir@) ==> new_path is None,
        !path_lists_dir(path@, dir@) ==> (new_path matches Some(p) && p@ == dir@ + ";"@ + path@),
{
    let pv = chars_of(path);
    let dv = chars_of(dir);
    let n = pv.len();
    let mut lo: usize = 0;
    let mut i: usize = 0;
    // every entry that ends before `lo` has been compared and is not `dir`
    while i < n
        invariant
            pv@ == path@,
            dv@ == dir@,
            n == pv@.len(),
            lo <= i <= n,
            lo == 0 || pv@[lo - 1] == ';',
            forall|k: int| lo <= k < i ==> pv@[k] != ';',
            forall|a: int, b: int| is_path_entry(pv@, a, b) && b < lo
                ==> !eq_ascii_case_insensitive(#[trigger] pv@.subrange(a, b), dv@),
        decreases n - i,
    {
        if pv[i] == ';' {
            if range_eq_ignore_ascii_case(&pv, lo, i, &dv) {
                assert(is_path_entry(pv@, lo as int, i as int));
                return None;
            }
            proof {
                lemma_entries_before(pv@, lo as int, i as int);
            }
            lo = i + 1;
        }
        i = i + 1;
    }
    if range_eq_ignore_ascii_case(&pv, lo, n, &dv) {
        assert(is_path_entry(pv@, lo as int, n as int));
        return None;
    }
    proof {
        assert forall|a: int, b: int| is_path_entry(pv@, a, b)
            implies !eq_ascii_case_insensitive(#[trigger] pv@.subrange(a, b), dv@) by {
            if b >= lo {
                lemma_entry_is_current(pv@, lo as int, n as int, a, b);
            }
        }
    }
    let mut p = String::from_str(dir);
    p.append(";");
    p.append(path);
    Some(p)
}

/// Putting the compiler's directory in front of the search list is done once:
/// the list it gives already names that directory, so a second call leaves it
/// alone. (A directory that holds a `;` would be split into several entries,
/// so the law is stated for directories without one.)
pub proof fn path_with_dir_is_idempotent(path: Seq<char>, dir: Seq<char>)
    requires
        !dir.contains(';'),
    ensures
        path_lists_dir(dir + ";"@ + path, dir),
{
    reveal_strlit(";");
    let p = dir + ";"@ + path;
    let n = dir.len() as int;
    assert(p[n] == ';');
    assert forall|k: int| 0 <= k < n implies p[k] != ';' by {
        assert(p[k] == dir[k]);
        if p[k] == ';' {
            assert(dir.contains(';'));
        }
    }
    assert(is_path_entry(p, 0, n));
    assert(p.subrange(0, n) =~= dir);
    assert(eq_ascii_case_insensitive(p.subrange(0, n), dir));
}

/// What compiling a formula came to, from what the boundary layer saw: whether
/// a compiler was found, how running it went (`Ok(success)`, or the reason it
/// could not be started), and whether the library then exists. The later
/// observations are consulted only when the earlier ones allow it.
pub fn compile_outcome(compiler_found: bool, status: Result<bool, String>, produced: bool) -> (r: Result<(), String>)
    ensures
        !compiler_found ==> (r matches Err(m) && m@ == "no C++ compiler found (need MinGW g++; set RTORCH_GXX)"@),
        compiler_found ==> match status {
            Err(e) => r matches Err(m) && m@ == "spawn g++: "@ + e@,
            Ok(false) => r matches Err(m) && m@ == "compilation failed (see g++ output above)"@,
            Ok(true) => if produced {
                r is Ok
            } else {
                r matches Err(m) && m@ == "g++ reported success but no DLL produced"@
            },
        },
{
    if !compiler_found {
        return Err(String::from_str("no C++ compiler found (need MinGW g++; set RTORCH_GXX)"));
    }
    match status {
        Err(e) => {
            let mut m = String::from_str("spawn g++: ");
            m.append(e.as_str());
            Err(m)
        },
        Ok(false) => Err(String::from_str("compilation failed (see g++ output above)")),
        Ok(true) => if produced {
            Ok(())
        } else {
            Err(String::from_str("g++ reported success but no DLL produced"))
        },
    }
}

/// An input blob as `rtorch_api_session_execute` sees it: whether its data
/// pointer is non-null, and its length.
pub struct BlobShape {
    pub data_present: bool,
    pub len: usize,
}

/// The argument checks of `rtorch_api_session_execute`, before any input is
/// read: a null session or output blob, then a null input array that claims
/// entries, then any input whose data pointer is null with a non-zero length,
/// is refused with `E_PARAM`. `inputs` describes the input array when it is
/// read (it is not consulted otherwise).
pub fn session_execute_check(
    session_present: bool,
    out_present: bool,
    in_blobs_present: bool,
    n_in: usize,
    inputs: &[BlobShape],
    slot: &mut ErrorSlot,
) -> (rc: i32)
    ensures
        !session_present || !out_present ==> rc == RTORCH_API_E_PARAM && final(slot)@
            == "rtorch_api: null session/out"@,
        session_present && out_present && !in_blobs_present && n_in > 0 ==> rc == RTORCH_API_E_PARAM
            && final(slot)@ == "rtorch_api: null in_blobs"@,
        session_present && out_present && !(!in_blobs_present && n_in > 0) ==> {
            if exists|k: int| 0 <= k < inputs@.len() && !(#[trigger] inputs@[k]).data_present && inputs@[k].len > 0 {
                rc == RTORCH_API_E_PARAM && final(slot)@ == "rtorch_api: null input data"@
            } else {
                rc == RTORCH_API_OK && final(slot)@ == old(slot)@
            }
        },
{
    if !session_present || !out_present {
        return err(slot, RTORCH_API_E_PARAM, "rtorch_api: null session/out");
    }
    if !in_blobs_present && n_in > 0 {
        return err(slot, RTORCH_API_E_PARAM, "rtorch_api: null in_blobs");
    }
    let mut k: usize = 0;
    while k < inputs.len()
        invariant
            session_present && out_present && !(!in_blobs_present && n_in > 0),
            k <= inputs@.len(),
            forall|j: int| 0 <= j < k ==> (#[trigger] inputs@[j]).data_present || inputs@[j].len == 0,
            slot@ == old(slot)@,
        decreases inputs@.len() - k,
    {
        if !inputs[k].data_present && inputs[k].len > 0 {
            return err(slot, RTORCH_API_E_PARAM, "rtorch_api: null input data");
        }
        k = k + 1;
    }
    RTORCH_API_OK
}

/// The last step of `rtorch_api_session_execute`: deliver what the formula
/// produced (`run`: its output bytes, or the reason it failed) into the
/// output blob, whose capacity is `*out_len` on entry and whose data is
/// `out_data` when `data_present`. Output longer than the capacity is
/// `E_PARAM` and leaves the blob untouched; otherwise the bytes are written
/// (when there is somewhere to write them) and `*out_len` becomes their
/// count. A failed run is `E_PARSE` with `"rtorch_api: formula run failed: {reason}"`.
pub fn session_execute_output(
    run: Result<Vec<u8>, String>,
    out_data: &mut [u8],
    data_present: bool,
    out_len: &mut usize,
    slot: &mut ErrorSlot,
) -> (rc: i32)
    requires
        data_present ==> old(out_data)@.len() == *old(out_len),
    ensures
        run matches Err(e) ==> {
            &&& rc == RTORCH_API_E_PARSE
            &&& final(slot)@ == "rtorch_api: formula run failed: "@ + e@
            &&& final(out_data)@ == old(out_data)@
            &&& *final(out_len) == *old(out_len)
        },
        run matches Ok(bytes) ==> if bytes@.len() > *old(out_len) {
            &&& rc == RTORCH_API_E_PARAM
            &&& final(slot)@ == "rtorch_api: output buffer too small"@
            &&& final(out_data)@ == old(out_data)@
            &&& *final(out_len) == *old(out_len)
        } else {
            &&& rc == RTORCH_API_OK
            &&& final(slot)@ == old(slot)@
            &&& *final(out_len) == bytes@.len()
            &&& final(out_data)@ == if data_present {
                overwrite_front(old(out_data)@, bytes@)
            } else {
                old(out_data)@
            }
        },
{
    match run {
        Err(e) => {
            let mut msg = String::from_str("rtorch_api: formula run failed: ");
            msg.append(e.as_str());
            err(slot, RTORCH_API_E_PARSE, msg.as_str())
        },
        Ok(bytes) => {
            if bytes.len() > *out_len {
                return err(slot, RTORCH_API_E_PARAM, "rtorch_api: output buffer too small");
            }
            if data_present && bytes.len() > 0 {
                copy_front(out_data, bytes.as_slice());
            } else {
                proof {
                    if data_present {
                        assert(overwrite_front(old(out_data)@, bytes@) =~= old(out_data)@);
                    }
                }
            }
            *out_len = bytes.len();
            RTORCH_API_OK
        },
    }
}

} // verus!
