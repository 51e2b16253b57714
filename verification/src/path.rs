//! Where an entry of the cache lives on disk:
//! `<root>/<target triple>/<compiler>/mod-<key>[.d]`.
//!
//! The compiler's directory is its name and version, and for a development build the
//! stamp of that build. The file's name is the key in the URL-safe base64 alphabet without
//! padding, with `.d` behind it where debug information was asked for.

use vstd::prelude::*;
use vstd::string::*;

verus! {

/// The byte at `i`, or zero past the end.
pub open spec fn byte_or_zero(data: Seq<u8>, i: int) -> int {
    if 0 <= i < data.len() {
        data[i] as int
    } else {
        0
    }
}

/// The `k`-th group of three bytes as one number of 24 bits, first byte highest. A group
/// that reaches past the end is filled up with zero bits.
pub open spec fn group24(data: Seq<u8>, k: int) -> int {
    byte_or_zero(data, 3 * k) * 65536 + byte_or_zero(data, 3 * k + 1) * 256 + byte_or_zero(
        data,
        3 * k + 2,
    )
}

/// The `i`-th group of six bits of `data`, highest bit first.
pub open spec fn sextet(data: Seq<u8>, i: int) -> int {
    let group = group24(data, i / 4);
    if i % 4 == 0 {
        group / 262144
    } else if i % 4 == 1 {
        group / 4096 % 64
    } else if i % 4 == 2 {
        group / 64 % 64
    } else {
        group % 64
    }
}

/// The character that stands for six bits in the URL-safe alphabet: `A` to `Z`, `a` to
/// `z`, `0` to `9`, `-`, `_`.
pub open spec fn symbol(v: int) -> char {
    if v < 26 {
        (65 + v) as char
    } else if v < 52 {
        (97 + (v - 26)) as char
    } else if v < 62 {
        (48 + (v - 52)) as char
    } else if v == 62 {
        '-'
    } else {
        '_'
    }
}

/// How many characters stand for `n` bytes: four for every three bytes, and two or three
/// for one or two bytes left over.
pub open spec fn encoded_len(n: nat) -> nat {
    (n * 4 + 2) / 3
}

/// `data` in base64 with the URL-safe alphabet and without padding.
pub open spec fn url_safe_no_pad(data: Seq<u8>) -> Seq<char> {
    Seq::new(encoded_len(data.len()), |i: int| symbol(sextet(data, i)))
}

/// Calls `base64::encode_config` with `base64::URL_SAFE_NO_PAD`. Claimed of it: the text
/// is the input's groups of six bits, each written as its character of the URL-safe
/// alphabet, with nothing added at the end. The call panics where the length of the text
/// does not fit in `usize`; the bound on the input keeps it from that.
#[verifier::external_body]
fn encode_url_safe(data: &[u8]) -> (text: String)
    requires
        (data@.len() / 3) * 4 + 3 <= usize::MAX,
    ensures
        text@ == url_safe_no_pad(data@),
{
    base64::encode_config(data, base64::URL_SAFE_NO_PAD)
}

/// The characters of a string slice that may be absent.
pub open spec fn str_of(s: Option<&str>) -> Option<Seq<char>> {
    match s {
        Some(s) => Some(s@),
        None => None,
    }
}

/// The name of a compiler's directory: name and version with a hyphen between them, and
/// behind another hyphen the stamp of the build, if it has one.
pub open spec fn compiler_dir_of(
    name: Seq<char>,
    version: Seq<char>,
    stamp: Option<Seq<char>>,
) -> Seq<char> {
    match stamp {
        Some(stamp) => name + seq!['-'] + version + seq!['-'] + stamp,
        None => name + seq!['-'] + version,
    }
}

/// The name of the file that holds the module with this key.
pub open spec fn mod_filename_of(key: Seq<u8>, debug_info: bool) -> Seq<char> {
    if debug_info {
        seq!['m', 'o', 'd', '-'] + url_safe_no_pad(key) + seq!['.', 'd']
    } else {
        seq!['m', 'o', 'd', '-'] + url_safe_no_pad(key)
    }
}

/// The name of a compiler's directory.
pub fn compiler_dir(name: &str, version: &str, stamp: Option<&str>) -> (dir: String)
    ensures
        dir@ == compiler_dir_of(name@, version@, str_of(stamp)),
{
    proof {
        reveal_strlit("-");
    }
    let mut dir = String::from_str(name);
    dir.append("-");
    dir.append(version);
    match stamp {
        Some(stamp) => {
            dir.append("-");
            dir.append(stamp);
        },
        None => {},
    }
    dir
}

/// The name of the file that holds the module with this key.
pub fn mod_filename(key: &[u8; 32], debug_info: bool) -> (name: String)
    ensures
        name@ == mod_filename_of(key@, debug_info),
{
    proof {
        reveal_strlit("mod-");
        reveal_strlit(".d");
    }
    let mut name = String::from_str("mod-");
    let text = encode_url_safe(key.as_slice());
    name.append(text.as_str());
    if debug_info {
        name.append(".d");
    }
    name
}

/// The place of one module's entry in the cache, part by part.
#[derive(Debug, PartialEq, Eq)]
pub struct CachePath {
    /// The cache directory.
    pub root: String,
    /// The target triple.
    pub target: String,
    /// The compiler's directory.
    pub compiler: String,
    /// The file's name.
    pub file_name: String,
}

/// What a [`CachePath`] holds, as plain values.
pub struct CachePathView {
    pub root: Seq<char>,
    pub target: Seq<char>,
    pub compiler: Seq<char>,
    pub file_name: Seq<char>,
}

impl View for CachePath {
    type V = CachePathView;

    open spec fn view(&self) -> CachePathView {
        CachePathView {
            root: self.root@,
            target: self.target@,
            compiler: self.compiler@,
            file_name: self.file_name@,
        }
    }
}

/// The place in the cache under `root` of the module with this key, compiled for `target`
/// by the compiler that the name, the version and the stamp describe.
pub open spec fn resolved(
    root: Seq<char>,
    key: Seq<u8>,
    target: Seq<char>,
    compiler_name: Seq<char>,
    compiler_version: Seq<char>,
    build_stamp: Option<Seq<char>>,
    debug_info: bool,
) -> CachePathView {
    CachePathView {
        root,
        target,
        compiler: compiler_dir_of(compiler_name, compiler_version, build_stamp),
        file_name: mod_filename_of(key, debug_info),
    }
}

impl CachePath {
    /// The place in the cache under `root` of the module with this key.
    pub fn resolve(
        root: &str,
        key: &[u8; 32],
        target: &str,
        compiler_name: &str,
        compiler_version: &str,
        build_stamp: Option<&str>,
        debug_info: bool,
    ) -> (path: CachePath)
        ensures
            path@ == resolved(
                root@,
                key@,
                target@,
                compiler_name@,
                compiler_version@,
                str_of(build_stamp),
                debug_info,
            ),
    {
        CachePath {
            root: String::from_str(root),
            target: String::from_str(target),
            compiler: compiler_dir(compiler_name, compiler_version, build_stamp),
            file_name: mod_filename(key, debug_info),
        }
    }
}

/// Whether a character belongs to the URL-safe alphabet.
pub open spec fn is_url_safe(c: char) -> bool {
    ||| 'A' <= c <= 'Z'
    ||| 'a' <= c <= 'z'
    ||| '0' <= c <= '9'
    ||| c == '-'
    ||| c == '_'
}

/// Whether a character parts the names in a path, on one platform or another.
pub open spec fn is_separator(c: char) -> bool {
    c == '/' || c == '\\'
}

/// Six bits are a number below 64.
pub proof fn lemma_sextet_range(data: Seq<u8>, i: int)
    requires
        0 <= i,
    ensures
        0 <= sextet(data, i) < 64,
{
}

/// The characters of the alphabet are 64 different ones.
pub proof fn lemma_symbol(v: int, w: int)
    requires
        0 <= v < 64,
        0 <= w < 64,
    ensures
        is_url_safe(symbol(v)),
        symbol(v) == symbol(w) ==> v == w,
{
}

/// Three bytes are given by the four groups of six bits of the number they make up.
proof fn lemma_regroup(b0: u32, b1: u32, b2: u32)
    requires
        b0 < 256,
        b1 < 256,
        b2 < 256,
    ensures
        ({
            let group: u32 = (b0 * 65536 + b1 * 256 + b2) as u32;
            &&& b0 == group / 262144 * 4 + group / 4096 % 64 / 16
            &&& b1 == group / 4096 % 64 % 16 * 16 + group / 64 % 64 / 4
            &&& b2 == group / 64 % 64 % 4 * 64 + group % 64
        }),
{
    assert(b0 < 256 && b1 < 256 && b2 < 256 ==> {
        let group: u32 = (b0 * 65536 + b1 * 256 + b2) as u32;
        &&& b0 == group / 262144 * 4 + group / 4096 % 64 / 16
        &&& b1 == group / 4096 % 64 % 16 * 16 + group / 64 % 64 / 4
        &&& b2 == group / 64 % 64 % 4 * 64 + group % 64
    }) by (bit_vector);
}

/// A group of three bytes is given by its four groups of six bits.
pub proof fn lemma_bytes_of_sextets(data: Seq<u8>, k: int)
    requires
        0 <= k,
    ensures
        byte_or_zero(data, 3 * k) == sextet(data, 4 * k) * 4 + sextet(data, 4 * k + 1) / 16,
        byte_or_zero(data, 3 * k + 1) == sextet(data, 4 * k + 1) % 16 * 16 + sextet(
            data,
            4 * k + 2,
        ) / 4,
        byte_or_zero(data, 3 * k + 2) == sextet(data, 4 * k + 2) % 4 * 64 + sextet(
            data,
            4 * k + 3,
        ),
{
    let b0 = byte_or_zero(data, 3 * k);
    let b1 = byte_or_zero(data, 3 * k + 1);
    let b2 = byte_or_zero(data, 3 * k + 2);
    lemma_regroup(b0 as u32, b1 as u32, b2 as u32);
}

/// The text of a key is made of the URL-safe alphabet alone.
pub proof fn lemma_text_is_url_safe(data: Seq<u8>)
    ensures
        forall|i: int|
            0 <= i < url_safe_no_pad(data).len() ==> is_url_safe(
                #[trigger] url_safe_no_pad(data)[i],
            ),
{
    assert forall|i: int| 0 <= i < url_safe_no_pad(data).len() implies is_url_safe(
        #[trigger] url_safe_no_pad(data)[i],
    ) by {
        lemma_sextet_range(data, i);
        lemma_symbol(sextet(data, i), 0);
    }
}

/// Different bytes are written as different text.
pub proof fn lemma_text_tells_bytes(a: Seq<u8>, b: Seq<u8>)
    requires
        url_safe_no_pad(a) == url_safe_no_pad(b),
    ensures
        a == b,
{
    let text = url_safe_no_pad(a);
    assert(text.len() == encoded_len(a.len()));
    assert(url_safe_no_pad(b).len() == encoded_len(b.len()));
    assert(a.len() == b.len());
    assert forall|i: int| 0 <= i < text.len() implies sextet(a, i) == sextet(b, i) by {
        lemma_sextet_range(a, i);
        lemma_sextet_range(b, i);
        assert(url_safe_no_pad(a)[i] == symbol(sextet(a, i)));
        assert(url_safe_no_pad(b)[i] == symbol(sextet(b, i)));
        lemma_symbol(sextet(a, i), sextet(b, i));
    }
    assert forall|j: int| 0 <= j < a.len() implies a[j] == b[j] by {
        let k = j / 3;
        lemma_bytes_of_sextets(a, k);
        lemma_bytes_of_sextets(b, k);
        assert(sextet(a, 4 * k) == sextet(b, 4 * k));
        assert(sextet(a, 4 * k + 1) == sextet(b, 4 * k + 1));
        if j % 3 >= 1 {
            assert(sextet(a, 4 * k + 2) == sextet(b, 4 * k + 2));
        }
        if j % 3 == 2 {
            assert(sextet(a, 4 * k + 3) == sextet(b, 4 * k + 3));
        }
    }
}

/// A key of 32 bytes is written as 43 characters.
pub proof fn lemma_key_text_len(key: Seq<u8>, debug_info: bool)
    requires
        key.len() == 32,
    ensures
        url_safe_no_pad(key).len() == 43,
        mod_filename_of(key, debug_info).len() == if debug_info {
            49int
        } else {
            47int
        },
{
}

/// No character of a file's name parts names in a path: the name is one name.
pub proof fn lemma_mod_filename_is_one_name(key: Seq<u8>, debug_info: bool)
    ensures
        forall|i: int|
            0 <= i < mod_filename_of(key, debug_info).len() ==> !is_separator(
                #[trigger] mod_filename_of(key, debug_info)[i],
            ),
{
    let text = url_safe_no_pad(key);
    let name = mod_filename_of(key, debug_info);
    lemma_text_is_url_safe(key);
    assert forall|i: int| 0 <= i < name.len() implies !is_separator(#[trigger] name[i]) by {
        if 4 <= i < 4 + text.len() {
            assert(name[i] == text[i - 4]);
        }
    }
}

/// Files have the same name only for the same key and the same choice of debug
/// information.
pub proof fn lemma_mod_filename_tells_key(a: Seq<u8>, a_debug: bool, b: Seq<u8>, b_debug: bool)
    requires
        mod_filename_of(a, a_debug) == mod_filename_of(b, b_debug),
    ensures
        a == b,
        a_debug == b_debug,
{
    let a_text = url_safe_no_pad(a);
    let b_text = url_safe_no_pad(b);
    let a_name = mod_filename_of(a, a_debug);
    let b_name = mod_filename_of(b, b_debug);
    lemma_text_is_url_safe(a);
    lemma_text_is_url_safe(b);
    let head = seq!['m', 'o', 'd', '-'];
    let tail = seq!['.', 'd'];
    assert(a_name.len() == b_name.len());
    if a_debug && !b_debug {
        let at = 4 + a_text.len() as int;
        assert(a_name == head + a_text + tail);
        assert(b_name == head + b_text);
        assert(a_name[at] == tail[0]);
        assert(b_name[at] == b_text[at - 4]);
    } else if !a_debug && b_debug {
        let at = 4 + b_text.len() as int;
        assert(b_name == head + b_text + tail);
        assert(a_name == head + a_text);
        assert(b_name[at] == tail[0]);
        assert(a_name[at] == a_text[at - 4]);
    } else {
        assert(a_text.len() == b_text.len());
        assert forall|i: int| 0 <= i < a_text.len() implies a_text[i] == b_text[i] by {
            assert(a_name[i + 4] == a_text[i]);
            assert(b_name[i + 4] == b_text[i]);
        }
        assert(a_text =~= b_text);
        lemma_text_tells_bytes(a, b);
    }
}

/// Two entries that differ in the cache directory, the key, the target or the choice of
/// debug information never live at the same place.
pub proof fn lemma_resolved_tells_inputs(
    root: Seq<char>,
    key: Seq<u8>,
    target: Seq<char>,
    debug_info: bool,
    other_root: Seq<char>,
    other_key: Seq<u8>,
    other_target: Seq<char>,
    other_debug_info: bool,
    compiler_name: Seq<char>,
    compiler_version: Seq<char>,
    build_stamp: Option<Seq<char>>,
)
    requires
        resolved(root, key, target, compiler_name, compiler_version, build_stamp, debug_info)
            == resolved(
            other_root,
            other_key,
            other_target,
            compiler_name,
            compiler_version,
            build_stamp,
            other_debug_info,
        ),
    ensures
        root == other_root,
        key == other_key,
        target == other_target,
        debug_info == other_debug_info,
{
    lemma_mod_filename_tells_key(key, debug_info, other_key, other_debug_info);
}

} // verus!
