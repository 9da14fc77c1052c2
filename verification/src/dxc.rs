use crate::d3d::{
    DXC_CP_UTF8, DXC_OUT_DISASSEMBLY, DXC_OUT_ERRORS, DXC_OUT_HLSL, DXC_OUT_OBJECT, DXC_OUT_PDB,
    DXC_OUT_REFLECTION, DXC_OUT_ROOT_SIGNATURE, DXC_OUT_SHADER_HASH, DXC_OUT_TEXT,
};
use crate::foundation::{E_ABORT, E_POINTER};
use crate::reflection::{reflected, ReflectionType, ShaderReflection};
use crate::utility::{Error, RawHandle};
use vstd::prelude::*;

verus! {

/// The views of the strings of a sequence, in order.
pub open spec fn strings_view(v: Seq<String>) -> Seq<Seq<char>> {
    v.map_values(|s: String| s@)
}

/// The views of the string slices of a sequence, in order.
pub open spec fn strs_view(v: Seq<&str>) -> Seq<Seq<char>> {
    v.map_values(|s: &str| s@)
}

/// The characters that decoding `bytes` as UTF-8 gives, each invalid sequence
/// replaced by U+FFFD.
pub uninterp spec fn utf8_lossy(bytes: Seq<u8>) -> Seq<char>;

/// `String::from_utf8_lossy` of std: decodes `bytes` as UTF-8 and replaces what is
/// invalid. The result is named by `utf8_lossy`; nothing more is claimed of it.
#[verifier::external_body]
pub(crate) fn string_from_utf8_lossy(bytes: &[u8]) -> (s: String)
    ensures
        s@ == utf8_lossy(bytes@),
{
    String::from_utf8_lossy(bytes).into_owned()
}

/// The handle to the compiler's utility object.
#[derive(Clone, Copy, PartialEq, Eq, Structural, Debug)]
pub struct Utils {
    pub raw: RawHandle,
}

impl Utils {
    /// Takes the outcome of the native call that creates the utility object.
    pub fn new(created: Result<RawHandle, Error>) -> (r: Result<Self, Error>)
        ensures
            r == match created {
                Ok(raw) => Ok::<Utils, Error>(Utils { raw }),
                Err(e) => Err::<Utils, Error>(e),
            },
    {
        match created {
            Ok(raw) => Ok(Utils { raw }),
            Err(e) => Err(e),
        }
    }

    pub fn handle(&self) -> (r: RawHandle)
        ensures
            r == self.raw,
    {
        self.raw
    }
}

/// A buffer of bytes that the compiler owns or was handed.
pub trait BlobType: Sized {
    /// The bytes of the buffer.
    spec fn bytes(&self) -> Seq<u8>;

    /// The identity of the native buffer object.
    spec fn raw(&self) -> RawHandle;

    fn handle(&self) -> (r: RawHandle)
        ensures
            r == self.raw(),
    ;

    fn is_empty(&self) -> (r: bool)
        ensures
            r == (self.bytes().len() == 0),
    ;

    fn len(&self) -> (r: usize)
        ensures
            r == self.bytes().len(),
    ;

    fn as_slice(&self) -> (r: &[u8])
        ensures
            r@ == self.bytes(),
    ;
}

/// A native buffer object over bytes that the caller keeps alive.
#[derive(Clone, Copy, PartialEq, Eq, Debug)]
pub struct RefBlob<'a> {
    pub raw: RawHandle,
    pub data: &'a [u8],
}

impl<'a> RefBlob<'a> {
    /// The length that the native layer is told for `data`.
    pub fn pinned_len(data: &[u8]) -> (r: u32)
        requires
            data@.len() <= u32::MAX,
        ensures
            r == data@.len(),
    {
        data.len() as u32
    }

    /// Takes the outcome of the native call that wraps `data`, which the call was
    /// given together with `pinned_len(data)` and `encoding`.
    pub fn new(util: &Utils, data: &'a [u8], encoding: u32, created: Result<RawHandle, Error>) -> (r:
        Result<Self, Error>)
        ensures
            r == match created {
                Ok(raw) => Ok::<RefBlob<'a>, Error>(RefBlob { raw, data }),
                Err(e) => Err::<RefBlob<'a>, Error>(e),
            },
    {
        match created {
            Ok(raw) => Ok(RefBlob { raw, data }),
            Err(e) => Err(e),
        }
    }
}

impl<'a> BlobType for RefBlob<'a> {
    open spec fn bytes(&self) -> Seq<u8> {
        self.data@
    }

    open spec fn raw(&self) -> RawHandle {
        self.raw
    }

    fn handle(&self) -> (r: RawHandle) {
        self.raw
    }

    fn is_empty(&self) -> (r: bool) {
        self.data.len() == 0
    }

    fn len(&self) -> (r: usize) {
        self.data.len()
    }

    fn as_slice(&self) -> (r: &[u8]) {
        self.data
    }
}

/// A native buffer object together with the bytes read from it.
#[derive(Clone, PartialEq, Eq, Debug)]
pub struct Blob {
    pub raw: RawHandle,
    pub data: Vec<u8>,
}

impl BlobType for Blob {
    open spec fn bytes(&self) -> Seq<u8> {
        self.data@
    }

    open spec fn raw(&self) -> RawHandle {
        self.raw
    }

    fn handle(&self) -> (r: RawHandle) {
        self.raw
    }

    fn is_empty(&self) -> (r: bool) {
        self.data.len() == 0
    }

    fn len(&self) -> (r: usize) {
        self.data.len()
    }

    fn as_slice(&self) -> (r: &[u8]) {
        self.data.as_slice()
    }
}

/// What the native layer hands back for one output of a compilation: the buffer
/// object and its bytes, `None` where the buffer's pointer is null.
#[derive(Clone, PartialEq, Eq, Debug)]
pub struct RawOutput {
    pub raw: RawHandle,
    pub data: Option<Vec<u8>>,
}

/// The hash of a compiled shader, as the compiler lays it out: a 32-bit word of
/// flags in little-endian order, then sixteen bytes of digest.
#[derive(Clone, PartialEq, Eq, Debug, Hash)]
pub struct ShaderHash {
    pub flags: u32,
    pub digest: [u8; 16],
}

/// The 32-bit word that four bytes spell in little-endian order.
pub open spec fn le_u32(b0: u8, b1: u8, b2: u8, b3: u8) -> u32 {
    (b0 as u32) | ((b1 as u32) << 8) | ((b2 as u32) << 16) | ((b3 as u32) << 24)
}

impl ShaderHash {
    /// The size of the layout in bytes.
    pub const SIZE: usize = 20;

    /// Reads a hash from the start of `bytes`.
    pub fn from_bytes(bytes: &[u8]) -> (r: Self)
        requires
            bytes@.len() >= Self::SIZE,
        ensures
            r.flags == le_u32(bytes@[0], bytes@[1], bytes@[2], bytes@[3]),
            r.digest@ == bytes@.subrange(4, 20),
    {
        let flags: u32 = (bytes[0] as u32) | ((bytes[1] as u32) << 8) | ((bytes[2] as u32) << 16)
            | ((bytes[3] as u32) << 24);
        let digest: [u8; 16] = [
            bytes[4],
            bytes[5],
            bytes[6],
            bytes[7],
            bytes[8],
            bytes[9],
            bytes[10],
            bytes[11],
            bytes[12],
            bytes[13],
            bytes[14],
            bytes[15],
            bytes[16],
            bytes[17],
            bytes[18],
            bytes[19],
        ];
        assert(digest@ =~= bytes@.subrange(4, 20));
        ShaderHash { flags, digest }
    }
}

/// What reading an output as a buffer gives.
pub open spec fn blob_of_output(output: Result<RawOutput, Error>) -> Result<Blob, Error> {
    match output {
        Err(e) => Err(e),
        Ok(o) => match o.data {
            None => Err(Error { code: E_POINTER }),
            Some(data) => Ok(Blob { raw: o.raw, data }),
        },
    }
}

/// What reading an output as text gives.
pub open spec fn text_of_output(output: Result<RawOutput, Error>) -> Result<Seq<char>, Error> {
    match output {
        Err(e) => Err(e),
        Ok(o) => match o.data {
            None => Ok(Seq::<char>::empty()),
            Some(data) => Ok(utf8_lossy(data@)),
        },
    }
}

/// The view of a text result.
pub open spec fn text_result_view(r: Result<String, Error>) -> Result<Seq<char>, Error> {
    match r {
        Ok(s) => Ok(s@),
        Err(e) => Err(e),
    }
}

/// The result of one compilation.
///
/// Each accessor is told whether the result has the output asked for, and is
/// handed the native call that fetches an output of a kind. It makes that call
/// only where the output is there.
#[derive(Clone, Copy, PartialEq, Eq, Structural, Debug)]
pub struct CompileResult {
    pub raw: RawHandle,
}

impl CompileResult {
    /// Fetches the output of `kind` as a buffer: `E_ABORT` where the result has no
    /// such output, the native error where the fetch fails, `E_POINTER` where the
    /// buffer fetched has a null pointer.
    pub fn get_blob<F>(
        &self,
        kind: i32,
        has_output: bool,
        get_output: F,
    ) -> (r: Result<Blob, Error>)
        where F: FnOnce(i32) -> Result<RawOutput, Error>
        requires
            get_output.requires((kind,)),
        ensures
            !has_output ==> r == Err::<Blob, Error>(Error { code: E_ABORT }),
            has_output ==> exists|o: Result<RawOutput, Error>| #[trigger]
                get_output.ensures((kind,), o) && r == blob_of_output(o),
    {
        if !has_output {
            return Err(Error { code: E_ABORT });
        }
        let output = get_output(kind);
        match output {
            Err(e) => Err(e),
            Ok(o) => match o.data {
                None => Err(Error { code: E_POINTER }),
                Some(data) => Ok(Blob { raw: o.raw, data }),
            },
        }
    }

    /// Fetches the output of `kind` as text: `E_ABORT` where the result has no such
    /// output, the native error where the fetch fails, the empty string where the
    /// buffer fetched has a null pointer, else its bytes decoded as UTF-8.
    pub fn get_string<F>(&self, kind: i32, has_output: bool, get_output: F) -> (r: Result<
        String,
        Error,
    >)
        where F: FnOnce(i32) -> Result<RawOutput, Error>
        requires
            get_output.requires((kind,)),
        ensures
            !has_output ==> r == Err::<String, Error>(Error { code: E_ABORT }),
            has_output ==> exists|o: Result<RawOutput, Error>| #[trigger]
                get_output.ensures((kind,), o) && text_result_view(r) == text_of_output(o),
    {
        if !has_output {
            return Err(Error { code: E_ABORT });
        }
        let output = get_output(kind);
        let ghost witness = output;
        let r = match output {
            Err(e) => Err(e),
            Ok(o) => match o.data {
                None => Ok(String::new()),
                Some(data) => Ok(string_from_utf8_lossy(data.as_slice())),
            },
        };
        assert(get_output.ensures((kind,), witness) && text_result_view(r) == text_of_output(
            witness,
        ));
        r
    }

    /// Whether the result has an output of `kind`, as the native layer reports it.
    pub fn has_output(&self, kind: i32, reported: bool) -> (r: bool)
        ensures
            r == reported,
    {
        reported
    }

    pub fn object<F>(&self, has_output: bool, get_output: F) -> (r: Result<Blob, Error>)
        where F: FnOnce(i32) -> Result<RawOutput, Error>
        requires
            get_output.requires((DXC_OUT_OBJECT,)),
        ensures
            !has_output ==> r == Err::<Blob, Error>(Error { code: E_ABORT }),
            has_output ==> exists|o: Result<RawOutput, Error>| #[trigger]
                get_output.ensures((DXC_OUT_OBJECT,), o) && r == blob_of_output(o),
    {
        self.get_blob(DXC_OUT_OBJECT, has_output, get_output)
    }

    pub fn errors<F>(&self, has_output: bool, get_output: F) -> (r: Result<String, Error>)
        where F: FnOnce(i32) -> Result<RawOutput, Error>
        requires
            get_output.requires((DXC_OUT_ERRORS,)),
        ensures
            !has_output ==> r == Err::<String, Error>(Error { code: E_ABORT }),
            has_output ==> exists|o: Result<RawOutput, Error>| #[trigger]
                get_output.ensures((DXC_OUT_ERRORS,), o) && text_result_view(r) == text_of_output(
                    o,
                ),
    {
        self.get_string(DXC_OUT_ERRORS, has_output, get_output)
    }

    pub fn pdb<F>(&self, has_output: bool, get_output: F) -> (r: Result<Blob, Error>)
        where F: FnOnce(i32) -> Result<RawOutput, Error>
        requires
            get_output.requires((DXC_OUT_PDB,)),
        ensures
            !has_output ==> r == Err::<Blob, Error>(Error { code: E_ABORT }),
            has_output ==> exists|o: Result<RawOutput, Error>| #[trigger]
                get_output.ensures((DXC_OUT_PDB,), o) && r == blob_of_output(o),
    {
        self.get_blob(DXC_OUT_PDB, has_output, get_output)
    }

    /// Fetches the hash of the shader. The buffer fetched holds at least the
    /// twenty bytes of the layout; a shorter one is reported as `E_POINTER`.
    pub fn shader_hash<F>(&self, has_output: bool, get_output: F) -> (r: Result<ShaderHash, Error>)
        where F: FnOnce(i32) -> Result<RawOutput, Error>
        requires
            get_output.requires((DXC_OUT_SHADER_HASH,)),
        ensures
            !has_output ==> r == Err::<ShaderHash, Error>(Error { code: E_ABORT }),
            has_output ==> exists|o: Result<RawOutput, Error>| #[trigger]
                get_output.ensures((DXC_OUT_SHADER_HASH,), o) && match blob_of_output(o) {
                    Err(e) => r == Err::<ShaderHash, Error>(e),
                    Ok(blob) => if blob.data@.len() < ShaderHash::SIZE {
                        r == Err::<ShaderHash, Error>(Error { code: E_POINTER })
                    } else {
                        &&& r.is_ok()
                        &&& r.unwrap().flags == le_u32(
                            blob.data@[0],
                            blob.data@[1],
                            blob.data@[2],
                            blob.data@[3],
                        )
                        &&& r.unwrap().digest@ == blob.data@.subrange(4, 20)
                    },
                },
    {
        match self.get_blob(DXC_OUT_SHADER_HASH, has_output, get_output) {
            Err(e) => Err(e),
            Ok(blob) => {
                if blob.data.len() < ShaderHash::SIZE {
                    Err(Error { code: E_POINTER })
                } else {
                    Ok(ShaderHash::from_bytes(blob.data.as_slice()))
                }
            },
        }
    }

    pub fn disassembly<F>(&self, has_output: bool, get_output: F) -> (r: Result<String, Error>)
        where F: FnOnce(i32) -> Result<RawOutput, Error>
        requires
            get_output.requires((DXC_OUT_DISASSEMBLY,)),
        ensures
            !has_output ==> r == Err::<String, Error>(Error { code: E_ABORT }),
            has_output ==> exists|o: Result<RawOutput, Error>| #[trigger]
                get_output.ensures((DXC_OUT_DISASSEMBLY,), o) && text_result_view(r)
                    == text_of_output(o),
    {
        self.get_string(DXC_OUT_DISASSEMBLY, has_output, get_output)
    }

    pub fn hlsl<F>(&self, has_output: bool, get_output: F) -> (r: Result<String, Error>)
        where F: FnOnce(i32) -> Result<RawOutput, Error>
        requires
            get_output.requires((DXC_OUT_HLSL,)),
        ensures
            !has_output ==> r == Err::<String, Error>(Error { code: E_ABORT }),
            has_output ==> exists|o: Result<RawOutput, Error>| #[trigger]
                get_output.ensures((DXC_OUT_HLSL,), o) && text_result_view(r) == text_of_output(o),
    {
        self.get_string(DXC_OUT_HLSL, has_output, get_output)
    }

    pub fn text<F>(&self, has_output: bool, get_output: F) -> (r: Result<String, Error>)
        where F: FnOnce(i32) -> Result<RawOutput, Error>
        requires
            get_output.requires((DXC_OUT_TEXT,)),
        ensures
            !has_output ==> r == Err::<String, Error>(Error { code: E_ABORT }),
            has_output ==> exists|o: Result<RawOutput, Error>| #[trigger]
                get_output.ensures((DXC_OUT_TEXT,), o) && text_result_view(r) == text_of_output(o),
    {
        self.get_string(DXC_OUT_TEXT, has_output, get_output)
    }

    pub fn root_signature<F>(&self, has_output: bool, get_output: F) -> (r: Result<Blob, Error>)
        where F: FnOnce(i32) -> Result<RawOutput, Error>
        requires
            get_output.requires((DXC_OUT_ROOT_SIGNATURE,)),
        ensures
            !has_output ==> r == Err::<Blob, Error>(Error { code: E_ABORT }),
            has_output ==> exists|o: Result<RawOutput, Error>| #[trigger]
                get_output.ensures((DXC_OUT_ROOT_SIGNATURE,), o) && r == blob_of_output(o),
    {
        self.get_blob(DXC_OUT_ROOT_SIGNATURE, has_output, get_output)
    }

    /// Creates the reflection on the shader that this compilation produced, as
    /// `ShaderReflection::from_compile_result` does.
    pub fn reflection<G, C>(&self, utils: &Utils, has_output: bool, get_output: G, create: C) -> (r:
        Result<ShaderReflection, Error>)
        where
            G: FnOnce(i32) -> Result<RawOutput, Error>,
            C: FnOnce(Vec<u8>, u32) -> Result<RawHandle, Error>,
        requires
            get_output.requires((DXC_OUT_REFLECTION,)),
            forall|data: Vec<u8>| #[trigger] create.requires((data, DXC_CP_UTF8)),
        ensures
            !has_output ==> r == Err::<ShaderReflection, Error>(Error { code: E_ABORT }),
            has_output ==> exists|o: Result<RawOutput, Error>| #[trigger]
                get_output.ensures((DXC_OUT_REFLECTION,), o) && match blob_of_output(o) {
                    Err(e) => r == Err::<ShaderReflection, Error>(e),
                    Ok(blob) => exists|created: Result<RawHandle, Error>| #[trigger]
                        create.ensures(
                            (blob.data, DXC_CP_UTF8),
                            created,
                        ) && r == reflected(created),
                },
    {
        ShaderReflection::from_compile_result(utils, self, has_output, get_output, create)
    }

    pub fn result(&self) -> (r: RawHandle)
        ensures
            r == self.raw,
    {
        self.raw
    }
}

/// The options of one compilation.
#[derive(Debug)]
pub struct Arguments {
    pub source_name: Option<String>,
    pub target: Option<String>,
    pub entry_point: Option<String>,
    pub include_dirs: Vec<String>,
    pub defines: Vec<String>,
    pub optimization: Option<u32>,
    pub strict_mode: bool,
    pub no_legacy_cbuf_layout: bool,
    pub no_warnings: bool,
    pub validation: bool,
    pub debug_info: bool,
    pub hash_considering_only_binary: bool,
    pub hash_considering_source_info: bool,
    pub embed_debug: bool,
    pub warnings_as_errors: bool,
    pub hlsl_version: String,
    pub extra: Vec<String>,
}

/// The options of one compilation, as mathematical values.
pub struct ArgumentsView {
    pub source_name: Option<Seq<char>>,
    pub target: Option<Seq<char>>,
    pub entry_point: Option<Seq<char>>,
    pub include_dirs: Seq<Seq<char>>,
    pub defines: Seq<Seq<char>>,
    pub optimization: Option<u32>,
    pub strict_mode: bool,
    pub no_legacy_cbuf_layout: bool,
    pub no_warnings: bool,
    pub validation: bool,
    pub debug_info: bool,
    pub hash_considering_only_binary: bool,
    pub hash_considering_source_info: bool,
    pub embed_debug: bool,
    pub warnings_as_errors: bool,
    pub hlsl_version: Seq<char>,
    pub extra: Seq<Seq<char>>,
}

/// The view of an optional string.
pub open spec fn optional_view(s: Option<String>) -> Option<Seq<char>> {
    match s {
        Some(s) => Some(s@),
        None => None,
    }
}

/// A value alone, where there is one.
pub open spec fn positional(value: Option<Seq<char>>) -> Seq<Seq<char>> {
    match value {
        Some(v) => seq![v],
        None => seq![],
    }
}

/// A flag and its value, where there is a value.
pub open spec fn flagged(flag: Seq<char>, value: Option<Seq<char>>) -> Seq<Seq<char>> {
    match value {
        Some(v) => seq![flag, v],
        None => seq![],
    }
}

/// The flag before each of the values, in their order.
pub open spec fn flagged_each(flag: Seq<char>, values: Seq<Seq<char>>) -> Seq<Seq<char>>
    decreases values.len(),
{
    if values.len() == 0 {
        seq![]
    } else {
        flagged_each(flag, values.drop_last()).push(flag).push(values.last())
    }
}

/// A flag that is either there or not.
pub open spec fn switch(on: bool, flag: Seq<char>) -> Seq<Seq<char>> {
    if on {
        seq![flag]
    } else {
        seq![]
    }
}

/// The flag of an optimization level. Levels above 3 have none.
pub open spec fn optimization_flag(level: Option<u32>) -> Seq<char> {
    match level {
        None => "-Od"@,
        Some(l) => if l == 0 {
            "-O0"@
        } else if l == 1 {
            "-O1"@
        } else if l == 2 {
            "-O2"@
        } else {
            "-O3"@
        },
    }
}

impl ArgumentsView {
    /// Whether the options can be turned into an argument vector: the
    /// optimization level, where one is set, is 3 at most.
    pub open spec fn buildable(self) -> bool {
        match self.optimization {
            None => true,
            Some(l) => l <= 3,
        }
    }

    /// The argument vector that stands for the options.
    pub open spec fn argv(self) -> Seq<Seq<char>> {
        Seq::<Seq<char>>::empty() + positional(self.source_name) + flagged("-T"@, self.target)
            + flagged("-E"@, self.entry_point) + flagged_each("-I"@, self.include_dirs)
            + flagged_each("-D"@, self.defines) + seq![optimization_flag(self.optimization)]
            + switch(self.strict_mode, "-Ges"@) + switch(
            self.no_legacy_cbuf_layout,
            "-no-legacy-cbuf-layout"@,
        ) + switch(self.no_warnings, "-no-warnings"@) + switch(!self.validation, "-Vd"@) + switch(
            self.debug_info,
            "-Zi"@,
        ) + switch(self.hash_considering_only_binary, "-Zsb"@) + switch(
            self.hash_considering_source_info,
            "-Zss"@,
        ) + switch(self.embed_debug, "-Qembed_debug"@) + switch(self.warnings_as_errors, "-WX"@)
            + seq!["-HV"@] + seq![self.hlsl_version] + self.extra
    }
}

impl View for Arguments {
    type V = ArgumentsView;

    open spec fn view(&self) -> ArgumentsView {
        ArgumentsView {
            source_name: optional_view(self.source_name),
            target: optional_view(self.target),
            entry_point: optional_view(self.entry_point),
            include_dirs: strings_view(self.include_dirs@),
            defines: strings_view(self.defines@),
            optimization: self.optimization,
            strict_mode: self.strict_mode,
            no_legacy_cbuf_layout: self.no_legacy_cbuf_layout,
            no_warnings: self.no_warnings,
            validation: self.validation,
            debug_info: self.debug_info,
            hash_considering_only_binary: self.hash_considering_only_binary,
            hash_considering_source_info: self.hash_considering_source_info,
            embed_debug: self.embed_debug,
            warnings_as_errors: self.warnings_as_errors,
            hlsl_version: self.hlsl_version@,
            extra: strings_view(self.extra@),
        }
    }
}

/// Appends a copy of `s` to `args`.
fn push_str(args: &mut Vec<String>, s: &str)
    ensures
        strings_view(final(args)@) == strings_view(old(args)@).push(s@),
{
    args.push(s.to_owned());
    assert(strings_view(args@) =~= strings_view(old(args)@).push(s@));
}

/// Appends a copy of `s` to `args`, as a vector of one argument.
fn push_one(args: &mut Vec<String>, s: &str)
    ensures
        strings_view(final(args)@) == strings_view(old(args)@) + seq![s@],
{
    push_str(args, s);
    assert(strings_view(args@) =~= strings_view(old(args)@) + seq![s@]);
}

/// Appends the flag of the optimization level to `args`.
fn push_optimization(args: &mut Vec<String>, level: Option<u32>)
    requires
        match level {
            None => true,
            Some(l) => l <= 3,
        },
    ensures
        strings_view(final(args)@) == strings_view(old(args)@) + seq![optimization_flag(level)],
{
    match level {
        None => push_one(args, "-Od"),
        Some(l) => {
            if l == 0 {
                push_one(args, "-O0")
            } else if l == 1 {
                push_one(args, "-O1")
            } else if l == 2 {
                push_one(args, "-O2")
            } else {
                push_one(args, "-O3")
            }
        },
    }
}

/// Turns string slices into strings.
pub(crate) fn own_strings(strs: &[&str]) -> (r: Vec<String>)
    ensures
        strings_view(r@) == strs_view(strs@),
{
    let mut out: Vec<String> = Vec::new();
    let mut i: usize = 0;
    assert(strings_view(out@) =~= strs_view(strs@).take(0));
    while i < strs.len()
        invariant
            i <= strs.len(),
            strings_view(out@) == strs_view(strs@).take(i as int),
        decreases strs.len() - i,
    {
        push_str(&mut out, strs[i]);
        assert(strings_view(out@) =~= strs_view(strs@).take(i + 1));
        i += 1;
    }
    assert(strs_view(strs@).take(strs@.len() as int) =~= strs_view(strs@));
    out
}

/// Appends `value`, where there is one, to `args`.
fn push_positional(args: &mut Vec<String>, value: &Option<String>)
    ensures
        strings_view(final(args)@) == strings_view(old(args)@) + positional(optional_view(*value)),
{
    match value {
        Some(v) => {
            push_str(args, v.as_str());
            assert(strings_view(args@) =~= strings_view(old(args)@) + positional(
                optional_view(*value),
            ));
        },
        None => {
            assert(strings_view(args@) =~= strings_view(old(args)@) + positional(
                optional_view(*value),
            ));
        },
    }
}

/// Appends `flag` and `value`, where there is a value, to `args`.
fn push_flagged(args: &mut Vec<String>, flag: &str, value: &Option<String>)
    ensures
        strings_view(final(args)@) == strings_view(old(args)@) + flagged(
            flag@,
            optional_view(*value),
        ),
{
    match value {
        Some(v) => {
            push_str(args, flag);
            push_str(args, v.as_str());
            assert(strings_view(args@) =~= strings_view(old(args)@) + flagged(
                flag@,
                optional_view(*value),
            ));
        },
        None => {
            assert(strings_view(args@) =~= strings_view(old(args)@) + flagged(
                flag@,
                optional_view(*value),
            ));
        },
    }
}

/// Appends `flag` and a value to `args`, for each of `values` in turn.
fn push_flagged_each(args: &mut Vec<String>, flag: &str, values: &Vec<String>)
    ensures
        strings_view(final(args)@) == strings_view(old(args)@) + flagged_each(
            flag@,
            strings_view(values@),
        ),
{
    let mut i: usize = 0;
    assert(strings_view(values@).take(0) =~= Seq::<Seq<char>>::empty());
    assert(strings_view(args@) =~= strings_view(old(args)@) + flagged_each(
        flag@,
        strings_view(values@).take(0),
    ));
    while i < values.len()
        invariant
            i <= values.len(),
            strings_view(args@) == strings_view(old(args)@) + flagged_each(
                flag@,
                strings_view(values@).take(i as int),
            ),
        decreases values.len() - i,
    {
        let ghost before = strings_view(args@);
        push_str(args, flag);
        push_str(args, values[i].as_str());
        proof {
            let all = strings_view(values@);
            let next = all.take(i + 1);
            assert(next.drop_last() =~= all.take(i as int));
            assert(next.last() == values@[i as int]@);
            assert(strings_view(args@) =~= strings_view(old(args)@) + flagged_each(flag@, next));
        }
        i += 1;
    }
    assert(strings_view(values@).take(values@.len() as int) =~= strings_view(values@));
}

/// Appends `flag` to `args` where `on` holds.
fn push_switch(args: &mut Vec<String>, on: bool, flag: &str)
    ensures
        strings_view(final(args)@) == strings_view(old(args)@) + switch(on, flag@),
{
    if on {
        push_str(args, flag);
    }
    assert(strings_view(args@) =~= strings_view(old(args)@) + switch(on, flag@));
}

/// Appends a copy of each of `values` to `args`.
fn push_all(args: &mut Vec<String>, values: &Vec<String>)
    ensures
        strings_view(final(args)@) == strings_view(old(args)@) + strings_view(values@),
{
    let mut i: usize = 0;
    assert(strings_view(args@) =~= strings_view(old(args)@) + strings_view(values@).take(0));
    while i < values.len()
        invariant
            i <= values.len(),
            strings_view(args@) == strings_view(old(args)@) + strings_view(values@).take(i as int),
        decreases values.len() - i,
    {
        push_str(args, values[i].as_str());
        assert(strings_view(args@) =~= strings_view(old(args)@) + strings_view(values@).take(
            i + 1,
        ));
        i += 1;
    }
    assert(strings_view(values@).take(values@.len() as int) =~= strings_view(values@));
}

impl Arguments {
    /// The options that a compilation starts from: optimization level 3,
    /// validation on, language version 2021, everything else off or unset.
    pub fn new() -> (r: Self)
        ensures
            r@ == (ArgumentsView {
                source_name: None,
                target: None,
                entry_point: None,
                include_dirs: seq![],
                defines: seq![],
                optimization: Some(3u32),
                strict_mode: false,
                no_legacy_cbuf_layout: false,
                no_warnings: false,
                validation: true,
                debug_info: false,
                hash_considering_only_binary: false,
                hash_considering_source_info: false,
                embed_debug: false,
                warnings_as_errors: false,
                hlsl_version: "2021"@,
                extra: seq![],
            }),
    {
        let r = Arguments {
            source_name: None,
            target: None,
            entry_point: None,
            include_dirs: Vec::new(),
            defines: Vec::new(),
            optimization: Some(3),
            strict_mode: false,
            no_legacy_cbuf_layout: false,
            no_warnings: false,
            validation: true,
            debug_info: false,
            hash_considering_only_binary: false,
            hash_considering_source_info: false,
            embed_debug: false,
            warnings_as_errors: false,
            hlsl_version: "2021".to_owned(),
            extra: Vec::new(),
        };
        assert(r@.include_dirs =~= seq![]);
        assert(r@.defines =~= seq![]);
        assert(r@.extra =~= seq![]);
        r
    }

    pub fn source_name(self, name: &str) -> (r: Self)
        ensures
            r@ == (ArgumentsView { source_name: Some(name@), ..self@ }),
    {
        Arguments { source_name: Some(name.to_owned()), ..self }
    }

    pub fn target(self, target: &str) -> (r: Self)
        ensures
            r@ == (ArgumentsView { target: Some(target@), ..self@ }),
    {
        Arguments { target: Some(target.to_owned()), ..self }
    }

    pub fn entry_point(self, entry_point: &str) -> (r: Self)
        ensures
            r@ == (ArgumentsView { entry_point: Some(entry_point@), ..self@ }),
    {
        Arguments { entry_point: Some(entry_point.to_owned()), ..self }
    }

    pub fn include_dir(self, path: &str) -> (r: Self)
        ensures
            r@ == (ArgumentsView { include_dirs: self@.include_dirs.push(path@), ..self@ }),
    {
        let mut this = self;
        this.include_dirs.push(path.to_owned());
        assert(this@.include_dirs =~= self@.include_dirs.push(path@));
        this
    }

    pub fn define(self, define: &str) -> (r: Self)
        ensures
            r@ == (ArgumentsView { defines: self@.defines.push(define@), ..self@ }),
    {
        let mut this = self;
        this.defines.push(define.to_owned());
        assert(this@.defines =~= self@.defines.push(define@));
        this
    }

    pub fn optimization(self, level: Option<u32>) -> (r: Self)
        ensures
            r@ == (ArgumentsView { optimization: level, ..self@ }),
    {
        Arguments { optimization: level, ..self }
    }

    pub fn strict_mode(self, flag: bool) -> (r: Self)
        ensures
            r@ == (ArgumentsView { strict_mode: flag, ..self@ }),
    {
        Arguments { strict_mode: flag, ..self }
    }

    pub fn no_legacy_cbuf_layout(self, flag: bool) -> (r: Self)
        ensures
            r@ == (ArgumentsView { no_legacy_cbuf_layout: flag, ..self@ }),
    {
        Arguments { no_legacy_cbuf_layout: flag, ..self }
    }

    pub fn no_warnings(self, flag: bool) -> (r: Self)
        ensures
            r@ == (ArgumentsView { no_warnings: flag, ..self@ }),
    {
        Arguments { no_warnings: flag, ..self }
    }

    pub fn validation(self, flag: bool) -> (r: Self)
        ensures
            r@ == (ArgumentsView { validation: flag, ..self@ }),
    {
        Arguments { validation: flag, ..self }
    }

    pub fn debug_info(self, flag: bool) -> (r: Self)
        ensures
            r@ == (ArgumentsView { debug_info: flag, ..self@ }),
    {
        Arguments { debug_info: flag, ..self }
    }

    pub fn hash_considering_only_binary(self, flag: bool) -> (r: Self)
        ensures
            r@ == (ArgumentsView { hash_considering_only_binary: flag, ..self@ }),
    {
        Arguments { hash_considering_only_binary: flag, ..self }
    }

    pub fn hash_considering_source_info(self, flag: bool) -> (r: Self)
        ensures
            r@ == (ArgumentsView { hash_considering_source_info: flag, ..self@ }),
    {
        Arguments { hash_considering_source_info: flag, ..self }
    }

    pub fn embed_debug(self, flag: bool) -> (r: Self)
        ensures
            r@ == (ArgumentsView { embed_debug: flag, ..self@ }),
    {
        Arguments { embed_debug: flag, ..self }
    }

    pub fn warnings_as_errors(self, flag: bool) -> (r: Self)
        ensures
            r@ == (ArgumentsView { warnings_as_errors: flag, ..self@ }),
    {
        Arguments { warnings_as_errors: flag, ..self }
    }

    pub fn hlsl_version(self, version: &str) -> (r: Self)
        ensures
            r@ == (ArgumentsView { hlsl_version: version@, ..self@ }),
    {
        Arguments { hlsl_version: version.to_owned(), ..self }
    }

    /// Replaces the arguments that are handed on as they are.
    pub fn extra(self, args: &[&str]) -> (r: Self)
        ensures
            r@ == (ArgumentsView { extra: strs_view(args@), ..self@ }),
    {
        Arguments { extra: own_strings(args), ..self }
    }

    /// The argument vector that the native compiler is given.
    pub fn build(&self) -> (args: Vec<String>)
        requires
            self@.buildable(),
        ensures
            strings_view(args@) == self@.argv(),
    {
        let mut args: Vec<String> = Vec::new();
        assert(strings_view(args@) =~= Seq::<Seq<char>>::empty());
        push_positional(&mut args, &self.source_name);
        push_flagged(&mut args, "-T", &self.target);
        push_flagged(&mut args, "-E", &self.entry_point);
        push_flagged_each(&mut args, "-I", &self.include_dirs);
        push_flagged_each(&mut args, "-D", &self.defines);
        push_optimization(&mut args, self.optimization);
        push_switch(&mut args, self.strict_mode, "-Ges");
        push_switch(&mut args, self.no_legacy_cbuf_layout, "-no-legacy-cbuf-layout");
        push_switch(&mut args, self.no_warnings, "-no-warnings");
        push_switch(&mut args, !self.validation, "-Vd");
        push_switch(&mut args, self.debug_info, "-Zi");
        push_switch(&mut args, self.hash_considering_only_binary, "-Zsb");
        push_switch(&mut args, self.hash_considering_source_info, "-Zss");
        push_switch(&mut args, self.embed_debug, "-Qembed_debug");
        push_switch(&mut args, self.warnings_as_errors, "-WX");
        push_one(&mut args, "-HV");
        push_one(&mut args, self.hlsl_version.as_str());
        push_all(&mut args, &self.extra);
        args
    }
}

/// The source text that a compilation is handed, with its encoding.
#[derive(Clone, Copy, PartialEq, Eq, Debug)]
pub struct SourceBuffer<'a> {
    pub data: &'a [u8],
    pub encoding: u32,
}

/// What a compilation gives for the outcome of the native compile call.
pub open spec fn compile_result_of(compiled: Result<RawHandle, Error>) -> Result<
    CompileResult,
    Error,
> {
    match compiled {
        Ok(raw) => Ok(CompileResult { raw }),
        Err(e) => Err(e),
    }
}

/// The handle to the native compiler.
#[derive(Clone, Copy, PartialEq, Eq, Structural, Debug)]
pub struct Compiler {
    pub utils: Utils,
    pub raw: RawHandle,
}

impl Compiler {
    /// Takes the outcome of the native call that creates the compiler.
    pub fn new(utils: &Utils, created: Result<RawHandle, Error>) -> (r: Result<Self, Error>)
        ensures
            r == match created {
                Ok(raw) => Ok::<Compiler, Error>(Compiler { utils: *utils, raw }),
                Err(e) => Err::<Compiler, Error>(e),
            },
    {
        match created {
            Ok(raw) => Ok(Compiler { utils: *utils, raw }),
            Err(e) => Err(e),
        }
    }

    /// Compiles `src` with `args`.
    ///
    /// The handler that resolves inclusions is created first; where that fails, its error is
    /// returned and nothing is compiled. The native compile call is handed `src`
    /// as UTF-8 text, the argument vector of `args`, and that handler.
    pub fn compile<'a, I, C>(
        &self,
        src: &'a [u8],
        args: &Arguments,
        create_include_handler: I,
        compile: C,
    ) -> (r: Result<CompileResult, Error>)
        where
            I: FnOnce() -> Result<RawHandle, Error>,
            C: FnOnce(SourceBuffer<'a>, Vec<String>, RawHandle) -> Result<RawHandle, Error>,
        requires
            args@.buildable(),
            create_include_handler.requires(()),
            forall|buffer: SourceBuffer<'a>, argv: Vec<String>, handler_raw: RawHandle|
                buffer.data == src && buffer.encoding == DXC_CP_UTF8 && strings_view(argv@)
                    == args@.argv() ==> #[trigger] compile.requires((buffer, argv, handler_raw)),
        ensures
            exists|handler: Result<RawHandle, Error>| #[trigger]
                create_include_handler.ensures((), handler) && match handler {
                    Err(e) => r == Err::<CompileResult, Error>(e),
                    Ok(handler_raw) => exists|argv: Vec<String>, compiled: Result<RawHandle, Error>|
                        strings_view(argv@) == args@.argv() && #[trigger] compile.ensures(
                            (SourceBuffer { data: src, encoding: DXC_CP_UTF8 }, argv, handler_raw),
                            compiled,
                        ) && r == compile_result_of(compiled),
                },
    {
        let handler = create_include_handler();
        match handler {
            Err(e) => Err(e),
            Ok(handler_raw) => {
                let argv = args.build();
                let ghost handed = argv;
                let buffer = SourceBuffer { data: src, encoding: DXC_CP_UTF8 };
                let compiled = compile(buffer, argv, handler_raw);
                let r = match compiled {
                    Ok(raw) => Ok(CompileResult { raw }),
                    Err(e) => Err(e),
                };
                assert(strings_view(handed@) == args@.argv() && compile.ensures(
                    (SourceBuffer { data: src, encoding: DXC_CP_UTF8 }, handed, handler_raw),
                    compiled,
                ) && r == compile_result_of(compiled));
                r
            },
        }
    }
}

/// Whether `c` is an ASCII letter or digit.
pub open spec fn is_ascii_alphanumeric(c: char) -> bool {
    ('0' <= c && c <= '9') || ('A' <= c && c <= 'Z') || ('a' <= c && c <= 'z')
}

/// The four-character code that four bytes spell, the first in the lowest byte.
pub open spec fn fourcc_value(ch0: u8, ch1: u8, ch2: u8, ch3: u8) -> u32 {
    (ch0 as u32) | ((ch1 as u32) << 8) | ((ch2 as u32) << 16) | ((ch3 as u32) << 24)
}

/// The kind of a part of a shader container, a four-character code.
#[derive(Clone, Copy, PartialEq, Eq, Structural, Debug, Hash)]
pub struct PartKind(pub u32);

impl PartKind {
    pub const DXBC: u32 = 0x4342_5844;

    pub const RESOURCE_DEF: u32 = 0x4645_4452;

    pub const INPUT_SIGNATURE: u32 = 0x3147_5349;

    pub const OUTPUT_SIGNATURE: u32 = 0x3147_534F;

    pub const PATCH_CONSTANT_SIGNATURE: u32 = 0x3147_5350;

    pub const SHADER_STATISTICS: u32 = 0x5441_5453;

    pub const SHADER_DEBUG_INFO: u32 = 0x4244_4C49;

    pub const SHADER_DEBUG_NAME: u32 = 0x4E44_4C49;

    pub const FEATURE_INFO: u32 = 0x3049_4653;

    pub const PRIVATE_DATA: u32 = 0x5649_5250;

    pub const ROOT_SIGNATURE: u32 = 0x3053_5452;

    pub const DXIL: u32 = 0x4C49_5844;

    pub const PIPELINE_STATE_VALIDATION: u32 = 0x3056_5350;

    pub const RUNTIME_DATA: u32 = 0x5441_4452;

    pub const SHADER_HASH: u32 = 0x4853_4148;

    pub const SHADER_SOURCE_INFO: u32 = 0x4943_5253;

    pub const SHADER_PDB_INFO: u32 = 0x4942_4450;

    pub const COMPILER_VERSION: u32 = 0x5352_4556;

    /// The kind that four ASCII letters or digits spell.
    pub fn new(ch: [char; 4]) -> (r: Self)
        requires
            forall|i: int| 0 <= i < 4 ==> is_ascii_alphanumeric(#[trigger] ch@[i]),
        ensures
            r.0 == fourcc_value(ch@[0] as u8, ch@[1] as u8, ch@[2] as u8, ch@[3] as u8),
            r.chars() == ch@,
    {
        assert(is_ascii_alphanumeric(ch@[0]) && is_ascii_alphanumeric(ch@[1])
            && is_ascii_alphanumeric(ch@[2]) && is_ascii_alphanumeric(ch@[3]));
        let r = Self::fourcc(ch[0] as u8, ch[1] as u8, ch[2] as u8, ch[3] as u8);
        proof {
            lemma_fourcc_bytes(ch@[0] as u8, ch@[1] as u8, ch@[2] as u8, ch@[3] as u8);
            assert(r.chars() =~= ch@);
        }
        r
    }

    /// The kind that four bytes spell.
    pub fn fourcc(ch0: u8, ch1: u8, ch2: u8, ch3: u8) -> (r: Self)
        ensures
            r.0 == fourcc_value(ch0, ch1, ch2, ch3),
    {
        PartKind((ch0 as u32) | ((ch1 as u32) << 8) | ((ch2 as u32) << 16) | ((ch3 as u32) << 24))
    }

    /// The four characters of the code, the lowest byte first.
    pub open spec fn chars(self) -> Seq<char> {
        seq![
            ((self.0 & 0xff) as u8) as char,
            (((self.0 >> 8) & 0xff) as u8) as char,
            (((self.0 >> 16) & 0xff) as u8) as char,
            (((self.0 >> 24) & 0xff) as u8) as char,
        ]
    }

    pub fn to_chars(&self) -> (r: [char; 4])
        ensures
            r@ == self.chars(),
    {
        let v: u32 = self.0;
        assert((v & 0xff) <= 0xff && ((v >> 8) & 0xff) <= 0xff && ((v >> 16) & 0xff) <= 0xff && ((v
            >> 24) & 0xff) <= 0xff) by (bit_vector);
        let r: [char; 4] = [
            ((v & 0xff) as u8) as char,
            (((v >> 8) & 0xff) as u8) as char,
            (((v >> 16) & 0xff) as u8) as char,
            (((v >> 24) & 0xff) as u8) as char,
        ];
        assert(r@ =~= self.chars());
        r
    }
}

/// Each byte of a four-character code is the byte that was put there.
pub proof fn lemma_fourcc_bytes(ch0: u8, ch1: u8, ch2: u8, ch3: u8)
    ensures
        (fourcc_value(ch0, ch1, ch2, ch3) & 0xff) == ch0,
        ((fourcc_value(ch0, ch1, ch2, ch3) >> 8) & 0xff) == ch1,
        ((fourcc_value(ch0, ch1, ch2, ch3) >> 16) & 0xff) == ch2,
        ((fourcc_value(ch0, ch1, ch2, ch3) >> 24) & 0xff) == ch3,
{
    let v = fourcc_value(ch0, ch1, ch2, ch3);
    assert(v == (ch0 as u32) | ((ch1 as u32) << 8) | ((ch2 as u32) << 16) | ((ch3 as u32) << 24));
    assert(({
        let w = (ch0 as u32) | ((ch1 as u32) << 8) | ((ch2 as u32) << 16) | ((ch3 as u32) << 24);
        (w & 0xff) == ch0 as u32 && ((w >> 8) & 0xff) == ch1 as u32 && ((w >> 16) & 0xff)
            == ch2 as u32 && ((w >> 24) & 0xff) == ch3 as u32
    })) by (bit_vector);
}

/// One part of a shader container.
#[derive(Clone, Debug)]
pub struct Part {
    pub index: u32,
    pub container: RawHandle,
    pub kind: PartKind,
    pub content: Blob,
}

impl Part {
    /// Takes the outcome of the native call that creates the reflection on this
    /// part, which was asked of the container for the part's index.
    pub fn reflection<T: ReflectionType>(&self, created: Result<RawHandle, Error>) -> (r: Result<
        T,
        Error,
    >)
        ensures
            match created {
                Ok(raw) => r.is_ok() && r.unwrap().raw() == raw,
                Err(e) => r == Err::<T, Error>(e),
            },
    {
        match created {
            Ok(raw) => Ok(T::new(raw)),
            Err(e) => Err(e),
        }
    }
}

/// What reading the part at one index of a container gave: its kind, and, where
/// the kind was read, its content.
pub struct PartRead {
    pub kind: Result<u32, Error>,
    pub content: Option<Result<Blob, Error>>,
}

impl PartRead {
    /// The part that the read gives: one only where kind and content were both read.
    pub open spec fn part(self, index: u32, container: RawHandle) -> Option<Part> {
        match (self.kind, self.content) {
            (Ok(kind), Some(Ok(content))) => Some(
                Part { index, container, kind: PartKind(kind), content },
            ),
            _ => None,
        }
    }
}

/// The parts that a sequence of reads gives, the read at position `i` being that
/// of the part at index `i`: those that were read in full, in order.
pub open spec fn parts_of(reads: Seq<PartRead>, container: RawHandle) -> Seq<Part>
    decreases reads.len(),
{
    if reads.len() == 0 {
        seq![]
    } else {
        let before = parts_of(reads.drop_last(), container);
        match reads.last().part((reads.len() - 1) as u32, container) {
            Some(p) => before.push(p),
            None => before,
        }
    }
}

/// The handle to a loaded shader container.
#[derive(Clone, Copy, PartialEq, Eq, Structural, Debug)]
pub struct ContainerReflection {
    pub raw: RawHandle,
}

impl ContainerReflection {
    /// Loads a container: takes the native call that creates the reflection
    /// object and the one that loads the buffer into it. The second is made only
    /// where the first succeeded, with the object created and the buffer's handle.
    pub fn new<B, C, L>(blob: &B, create: C, load: L) -> (r: Result<Self, Error>)
        where
            B: BlobType,
            C: FnOnce() -> Result<RawHandle, Error>,
            L: FnOnce(RawHandle, RawHandle) -> Result<(), Error>,
        requires
            create.requires(()),
            forall|raw: RawHandle| #[trigger] load.requires((raw, blob.raw())),
        ensures
            exists|created: Result<RawHandle, Error>| #[trigger]
                create.ensures((), created) && match created {
                    Err(e) => r == Err::<ContainerReflection, Error>(e),
                    Ok(raw) => exists|loaded: Result<(), Error>| #[trigger]
                        load.ensures((raw, blob.raw()), loaded) && r == match loaded {
                            Ok(_) => Ok::<ContainerReflection, Error>(ContainerReflection { raw }),
                            Err(e) => Err::<ContainerReflection, Error>(e),
                        },
                },
    {
        let created = create();
        match created {
            Err(e) => Err(e),
            Ok(raw) => {
                let loaded = load(raw, blob.handle());
                let r = match loaded {
                    Ok(_) => Ok(ContainerReflection { raw }),
                    Err(e) => Err(e),
                };
                assert(load.ensures((raw, blob.raw()), loaded));
                r
            },
        }
    }

    /// The parts of the container that can be read, in the order of their indices.
    ///
    /// For each index below `part_count` the kind is read, and the content only
    /// where the kind was read. A part that fails to be read is left out.
    pub fn parts<K, C>(&self, part_count: u32, get_kind: K, get_content: C) -> (r: Vec<Part>)
        where K: Fn(u32) -> Result<u32, Error>, C: Fn(u32) -> Result<Blob, Error>
        requires
            forall|i: u32| i < part_count ==> #[trigger] get_kind.requires((i,)),
            forall|i: u32| i < part_count ==> #[trigger] get_content.requires((i,)),
        ensures
            exists|reads: Seq<PartRead>|
                {
                    &&& reads.len() == part_count
                    &&& forall|i: int|
                        0 <= i < part_count ==> get_kind.ensures(
                            (i as u32,),
                            (#[trigger] reads[i]).kind,
                        )
                    &&& forall|i: int|
                        0 <= i < part_count ==> match (#[trigger] reads[i]).content {
                            Some(c) => reads[i].kind.is_ok() && get_content.ensures((i as u32,), c),
                            None => reads[i].kind.is_err(),
                        }
                    &&& r@ == parts_of(reads, self.raw)
                },
    {
        let mut parts: Vec<Part> = Vec::new();
        let mut i: u32 = 0;
        let ghost mut reads: Seq<PartRead> = Seq::empty();
        assert(parts@ =~= parts_of(reads, self.raw));
        while i < part_count
            invariant
                i <= part_count,
                reads.len() == i,
                forall|j: u32| j < part_count ==> #[trigger] get_kind.requires((j,)),
                forall|j: u32| j < part_count ==> #[trigger] get_content.requires((j,)),
                forall|j: int|
                    0 <= j < i ==> get_kind.ensures((j as u32,), (#[trigger] reads[j]).kind),
                forall|j: int|
                    0 <= j < i ==> match (#[trigger] reads[j]).content {
                        Some(c) => reads[j].kind.is_ok() && get_content.ensures((j as u32,), c),
                        None => reads[j].kind.is_err(),
                    },
                parts@ == parts_of(reads, self.raw),
            decreases part_count - i,
        {
            let kind = get_kind(i);
            let ghost before = reads;
            match kind {
                Ok(k) => {
                    let content = get_content(i);
                    proof {
                        reads = reads.push(PartRead { kind, content: Some(content) });
                    }
                    match content {
                        Ok(c) => {
                            parts.push(
                                Part {
                                    index: i,
                                    container: self.raw,
                                    kind: PartKind(k),
                                    content: c,
                                },
                            );
                        },
                        Err(_) => {},
                    }
                },
                Err(_) => {
                    proof {
                        reads = reads.push(PartRead { kind, content: None });
                    }
                },
            }
            proof {
                assert(reads.drop_last() =~= before);
                assert(forall|j: int| 0 <= j < i ==> reads[j] == before[j]);
            }
            i += 1;
        }
        parts
    }
}

} // verus!
