//! Locating the compiled shader artifacts in the build tool's output and
//! loading each one into a named shader record.

use vstd::prelude::*;
use vstd::string::*;

verus! {

/// The SPIR-V magic number, the first word of every module.
pub const SPIRV_MAGIC: u32 = 0x0723_0203;

/// One compiled shader: its logical name and its SPIR-V words.
#[derive(Debug)]
pub struct SpirvShader {
    pub name: String,
    pub spirv: Vec<u32>,
}

/// One message of the build tool's machine-readable output, as far as loading
/// reads it: why it was emitted, and the files it lists.
#[derive(Debug)]
pub struct SpirvArtifacts {
    pub reason: String,
    pub filenames: Option<Vec<String>>,
}

/// Why a shader compilation produced nothing usable.
#[derive(Debug, Clone, Copy, PartialEq, Eq, Structural)]
pub enum CompileFailure {
    /// The build tool could not be run or exited abnormally.
    ToolchainFailed,
    /// The build tool's output could not be read.
    UnreadableOutput,
    /// No "artifact produced" message was found.
    NoArtifactEvent,
    /// The last "artifact produced" message lists no files.
    NoArtifactFilenames,
    /// The artifact's files hold no SPIR-V binary.
    NoShaderFiles,
    /// A file taken for a SPIR-V module does not have the `.spv` extension.
    UnnamedArtifact,
    /// A SPIR-V file could not be read, or is no SPIR-V module.
    InvalidSpirv,
}

/// The views of a sequence of strings.
pub open spec fn string_views(v: Seq<String>) -> Seq<Seq<char>>
    decreases v.len(),
{
    if v.len() == 0 {
        Seq::empty()
    } else {
        string_views(v.drop_last()).push(v.last()@)
    }
}

/// Whether a build message announces a produced artifact.
pub open spec fn is_artifact_event(m: SpirvArtifacts) -> bool {
    m.reason@ == "compiler-artifact"@
}

/// The position of the last artifact message, if there is one.
pub open spec fn last_artifact_index(ms: Seq<SpirvArtifacts>) -> Option<int>
    decreases ms.len(),
{
    if ms.len() == 0 {
        None
    } else if is_artifact_event(ms.last()) {
        Some(ms.len() - 1)
    } else {
        last_artifact_index(ms.drop_last())
    }
}

/// Whether a path names a SPIR-V binary.
pub open spec fn has_spv_extension(p: Seq<char>) -> bool {
    p.len() >= 4 && p.subrange(p.len() - 4, p.len() as int) == ".spv"@
}

/// The paths among `ps` that name SPIR-V binaries, in their order.
pub open spec fn spv_only(ps: Seq<Seq<char>>) -> Seq<Seq<char>>
    decreases ps.len(),
{
    if ps.len() == 0 {
        Seq::empty()
    } else if has_spv_extension(ps.last()) {
        spv_only(ps.drop_last()).push(ps.last())
    } else {
        spv_only(ps.drop_last())
    }
}

/// What selecting the shader files from the build messages yields: the SPIR-V
/// paths of the last artifact message, or why there are none.
pub open spec fn selected_paths(ms: Seq<SpirvArtifacts>) -> Result<Seq<Seq<char>>, CompileFailure> {
    match last_artifact_index(ms) {
        None => Err(CompileFailure::NoArtifactEvent),
        Some(i) => match ms[i].filenames {
            None => Err(CompileFailure::NoArtifactFilenames),
            Some(files) => {
                let ps = spv_only(string_views(files@));
                if ps.len() == 0 {
                    Err(CompileFailure::NoShaderFiles)
                } else {
                    Ok(ps)
                }
            },
        },
    }
}

/// Keeps the SPIR-V paths of `files`, in their order.
fn keep_spv_files(files: &Vec<String>) -> (r: Vec<String>)
    ensures
        string_views(r@) == spv_only(string_views(files@)),
{
    let mut r: Vec<String> = Vec::new();
    let mut i: usize = 0;
    while i < files.len()
        invariant
            i <= files.len(),
            string_views(r@) == spv_only(string_views(files@.take(i as int))),
        decreases files.len() - i,
    {
        assert(files@.take(i + 1).drop_last() =~= files@.take(i as int));
        let f = &files[i];
        assert(string_views(files@.take(i + 1)) == string_views(files@.take(i as int)).push(f@));
        let ghost vs = string_views(files@.take(i as int)).push(f@);
        assert(vs.drop_last() =~= string_views(files@.take(i as int)));
        assert(vs.last() == f@);
        let ghost before = r@;
        if ends_with_spv(f.as_str()) {
            r.push(f.clone());
            assert(r@.drop_last() =~= before);
        }
        i += 1;
    }
    assert(files@.take(files.len() as int) =~= files@);
    r
}

/// Whether `s` ends in the SPIR-V file extension.
pub fn ends_with_spv(s: &str) -> (r: bool)
    ensures
        r == has_spv_extension(s@),
{
    let n = s.unicode_len();
    if n < 4 {
        return false;
    }
    proof {
        reveal_strlit(".spv");
    }
    let tail = s.substring_char(n - 4, n);
    let r = tail.get_char(0) == '.' && tail.get_char(1) == 's' && tail.get_char(2) == 'p'
        && tail.get_char(3) == 'v';
    assert(r ==> tail@ =~= ".spv"@);
    r
}

/// Picks the SPIR-V files of the build: those of the last artifact message,
/// since earlier ones describe dependencies built on the way.
pub fn select_spirv_paths(messages: &Vec<SpirvArtifacts>) -> (r: Result<Vec<String>, CompileFailure>)
    ensures
        match (r, selected_paths(messages@)) {
            (Ok(v), Ok(ps)) => string_views(v@) == ps,
            (Err(e), Err(f)) => e == f,
            _ => false,
        },
{
    let mut i: usize = messages.len();
    let wanted = String::from_str("compiler-artifact");
    assert(messages@.take(i as int) =~= messages@);
    loop
        invariant
            i <= messages.len(),
            wanted@ == "compiler-artifact"@,
            last_artifact_index(messages@) == last_artifact_index(messages@.take(i as int)),
        ensures
            1 <= i <= messages.len(),
            is_artifact_event(messages@[i - 1]),
            last_artifact_index(messages@) == last_artifact_index(messages@.take(i as int)),
        decreases i,
    {
        if i == 0 {
            return Err(CompileFailure::NoArtifactEvent);
        }
        assert(messages@.take(i as int).drop_last() =~= messages@.take(i - 1));
        if messages[i - 1].reason == wanted {
            break;
        }
        i -= 1;
    }
    assert(messages@.take(i as int).last() == messages@[i - 1]);
    match &messages[i - 1].filenames {
        None => Err(CompileFailure::NoArtifactFilenames),
        Some(files) => {
            let kept = keep_spv_files(files);
            if kept.len() == 0 {
                Err(CompileFailure::NoShaderFiles)
            } else {
                Ok(kept)
            }
        },
    }
}

/// Whether a character separates the components of a path: `/` always, and
/// `\` where the platform's paths use it too.
pub open spec fn is_path_separator(c: char, backslash_separates: bool) -> bool {
    c == '/' || (backslash_separates && c == '\\')
}

/// Where the last component of a path begins.
pub open spec fn base_start(p: Seq<char>, backslash_separates: bool) -> int
    decreases p.len(),
{
    if p.len() == 0 {
        0
    } else if is_path_separator(p.last(), backslash_separates) {
        p.len() as int
    } else {
        base_start(p.drop_last(), backslash_separates)
    }
}

/// The logical shader name of a SPIR-V file: the stem of its base name, that
/// is the base name without its `.spv` extension, or the whole base name
/// where that is `.spv` alone (a name that only starts with a dot has no
/// extension).
pub open spec fn shader_name_of(p: Seq<char>, backslash_separates: bool) -> Option<Seq<char>> {
    let b = base_start(p, backslash_separates);
    if !has_spv_extension(p) {
        None
    } else if b == p.len() - 4 {
        Some(p.subrange(b, p.len() as int))
    } else {
        Some(p.subrange(b, p.len() - 4))
    }
}

/// Derives the logical shader name from the path of its SPIR-V file;
/// `backslash_separates` tells whether the platform's paths also separate
/// components with a backslash.
pub fn shader_name_from_path(path: &str, backslash_separates: bool) -> (r: Option<String>)
    ensures
        match (r, shader_name_of(path@, backslash_separates)) {
            (Some(name), Some(n)) => name@ == n,
            (None, None) => true,
            _ => false,
        },
{
    if !ends_with_spv(path) {
        return None;
    }
    let n = path.unicode_len();
    let mut i: usize = n;
    assert(path@.take(n as int) =~= path@);
    while i > 0 && !(path.get_char(i - 1) == '/' || (backslash_separates && path.get_char(i - 1)
        == '\\'))
        invariant
            i <= n,
            n == path@.len(),
            base_start(path@, backslash_separates) == base_start(
                path@.take(i as int),
                backslash_separates,
            ),
        decreases i,
    {
        assert(path@.take(i as int).drop_last() =~= path@.take(i - 1));
        i -= 1;
    }
    if i > 0 {
        assert(path@.take(i as int).last() == path@[i - 1]);
    }
    proof {
        reveal_strlit(".spv");
        if i > n - 4 {
            let tail = path@.subrange(n - 4, n as int);
            assert(tail == ".spv"@);
            assert(path@[i - 1] == tail[i - 1 - (n - 4)]);
        }
    }
    if i == n - 4 {
        Some(path.substring_char(i, n).to_owned())
    } else {
        Some(path.substring_char(i, n - 4).to_owned())
    }
}

/// The little-endian word at word position `i` of `b`.
pub open spec fn le_word(b: Seq<u8>, i: int) -> u32 {
    (b[4 * i] as int + b[4 * i + 1] as int * 0x100 + b[4 * i + 2] as int * 0x1_0000 + b[4 * i
        + 3] as int * 0x100_0000) as u32
}

/// The big-endian word at word position `i` of `b`.
pub open spec fn be_word(b: Seq<u8>, i: int) -> u32 {
    (b[4 * i + 3] as int + b[4 * i + 2] as int * 0x100 + b[4 * i + 1] as int * 0x1_0000 + b[4
        * i] as int * 0x100_0000) as u32
}

/// Whether `b` holds a SPIR-V module in either byte order: whole words, the
/// first of them the magic number.
pub open spec fn is_spirv_binary(b: Seq<u8>) -> bool {
    b.len() % 4 == 0 && b.len() >= 4 && (le_word(b, 0) == SPIRV_MAGIC || be_word(b, 0)
        == SPIRV_MAGIC)
}

/// The words of a SPIR-V module, read in the byte order its magic number shows.
pub open spec fn spirv_words(b: Seq<u8>) -> Seq<u32> {
    if le_word(b, 0) == SPIRV_MAGIC {
        Seq::new((b.len() / 4) as nat, |i: int| le_word(b, i))
    } else {
        Seq::new((b.len() / 4) as nat, |i: int| be_word(b, i))
    }
}

/// Relies on ash::util::read_spv: it refuses input whose length is not a
/// multiple of four or whose first word is not the magic number in either
/// byte order, and otherwise returns the words, swapped where the magic
/// number came out swapped.
#[verifier::external_body]
fn read_spirv_words(bytes: &Vec<u8>) -> (r: Option<Vec<u32>>)
    ensures
        r is Some <==> is_spirv_binary(bytes@),
        r matches Some(w) ==> w@ == spirv_words(bytes@),
{
    ash::util::read_spv(&mut std::io::Cursor::new(bytes.as_slice())).ok()
}

/// Builds the shader record of one SPIR-V file from its path and contents;
/// `backslash_separates` is as for `shader_name_from_path`.
pub fn load_shader(path: &str, bytes: &Vec<u8>, backslash_separates: bool) -> (r: Result<
    SpirvShader,
    CompileFailure,
>)
    ensures
        match shader_name_of(path@, backslash_separates) {
            None => r == Err::<SpirvShader, CompileFailure>(CompileFailure::UnnamedArtifact),
            Some(n) => if is_spirv_binary(bytes@) {
                r matches Ok(s) && s.name@ == n && s.spirv@ == spirv_words(bytes@)
            } else {
                r == Err::<SpirvShader, CompileFailure>(CompileFailure::InvalidSpirv)
            },
        },
{
    let name = match shader_name_from_path(path, backslash_separates) {
        Some(name) => name,
        None => return Err(CompileFailure::UnnamedArtifact),
    };
    match read_spirv_words(bytes) {
        Some(spirv) => Ok(SpirvShader { name, spirv }),
        None => Err(CompileFailure::InvalidSpirv),
    }
}

} // verus!
