use crate::d3d::{
    DXC_CP_UTF8, DXC_OUT_REFLECTION, D3D_SVC_MATRIX_COLUMNS, D3D_SVC_MATRIX_ROWS, D3D_SVC_SCALAR,
    D3D_SVC_STRUCT, D3D_SVC_VECTOR, D3D_SVT_BOOL, D3D_SVT_FLOAT, D3D_SVT_INT, D3D_SVT_MIN10FLOAT,
    D3D_SVT_MIN12INT, D3D_SVT_MIN16INT, D3D_SVT_MIN16UINT, D3D_SVT_MIN8FLOAT, D3D_SVT_STRING,
    D3D_SVT_UINT, D3D_SVT_VOID,
};
use crate::dxc::{blob_of_output, CompileResult, RawOutput, Utils};
use crate::utility::{Error, RawHandle};
use vstd::prelude::*;
use vstd::string::StrSliceExecFns;

verus! {

#[derive(Debug)]
pub struct SignatureParameterDesc {
    pub semantic_name: String,
    pub semantic_index: u32,
    pub system_value_type: i32,
    pub component_type: i32,
    pub mask: u8,
    pub read_write_mask: u8,
    pub stream: u32,
    pub min_precision: i32,
}

/// What the native layer reports of the binding of a shader input. The name is
/// `None` where it is no valid text.
#[derive(Debug)]
pub struct ShaderInputBindData {
    pub name: Option<String>,
    pub ty: i32,
    pub bind_point: u32,
    pub bind_count: u32,
    pub flags: u32,
    pub return_type: i32,
    pub dimension: i32,
    pub num_samples: u32,
    pub space: u32,
    pub id: u32,
}

#[derive(Debug)]
pub struct ShaderInputBindDesc {
    pub name: String,
    pub ty: i32,
    pub bind_point: u32,
    pub bind_count: u32,
    pub flags: i32,
    pub return_type: i32,
    pub dimension: i32,
    pub num_samples: u32,
    pub space: u32,
    pub id: u32,
}

impl ShaderInputBindDesc {
    /// Reads a binding: the name is empty where it is no valid text, and the
    /// flags are taken bit by bit.
    pub fn from_data(value: ShaderInputBindData) -> (r: Self)
        ensures
            r.name@ == match value.name {
                Some(n) => n@,
                None => Seq::<char>::empty(),
            },
            r.ty == value.ty,
            r.bind_point == value.bind_point,
            r.bind_count == value.bind_count,
            r.flags == value.flags as i32,
            r.return_type == value.return_type,
            r.dimension == value.dimension,
            r.num_samples == value.num_samples,
            r.space == value.space,
            r.id == value.id,
    {
        ShaderInputBindDesc {
            name: match value.name {
                Some(n) => n,
                None => String::new(),
            },
            ty: value.ty,
            bind_point: value.bind_point,
            bind_count: value.bind_count,
            flags: value.flags as i32,
            return_type: value.return_type,
            dimension: value.dimension,
            num_samples: value.num_samples,
            space: value.space,
            id: value.id,
        }
    }
}

#[derive(Clone, Copy, PartialEq, Eq, Structural, Debug)]
pub enum MatrixMajor {
    Columns,
    Rows,
}

/// The type of a shader variable.
#[derive(Debug)]
pub enum Type {
    Void,
    Bool,
    Int,
    Uint,
    Float,
    String,
    Texture,
    Texture1D,
    Texture2D,
    Texture3D,
    TextureCube,
    Sampler,
    Sampler1D,
    Sampler2D,
    Sampler3D,
    SamplerCube,
    Min8Float,
    Min10Float,
    Min16Int,
    Min12Int,
    Min16Uint,
    Vector(Vector),
    Matrix(Matrix),
    Struct(Struct),
    Unsupported,
}

#[derive(Debug)]
pub struct Vector {
    pub ty: Box<Type>,
    pub len: usize,
}

#[derive(Debug)]
pub struct Matrix {
    pub ty: Box<Type>,
    pub columns: usize,
    pub rows: usize,
    pub major: MatrixMajor,
}

#[derive(Debug)]
pub struct Member {
    pub name: String,
    pub ty: Type,
    pub offset: usize,
}

#[derive(Debug)]
pub struct Struct {
    pub name: String,
    pub members: Vec<Member>,
}

#[derive(Debug)]
pub struct ShaderBufferDesc {
    pub name: String,
    pub members: Vec<Type>,
}

/// What the native layer reports of the type of a variable or of a parameter:
/// its class, its scalar type, and its extent.
#[derive(Clone, Copy, PartialEq, Eq, Structural, Debug)]
pub struct TypeDesc {
    pub class: i32,
    pub ty: i32,
    pub rows: u32,
    pub columns: u32,
    pub members: u32,
}

/// The scalar type that stands for a value of the native layer.
pub open spec fn scalar(t: i32) -> Type {
    if t == D3D_SVT_VOID {
        Type::Void
    } else if t == D3D_SVT_BOOL {
        Type::Bool
    } else if t == D3D_SVT_INT {
        Type::Int
    } else if t == D3D_SVT_UINT {
        Type::Uint
    } else if t == D3D_SVT_FLOAT {
        Type::Float
    } else if t == D3D_SVT_STRING {
        Type::String
    } else if t == D3D_SVT_MIN8FLOAT {
        Type::Min8Float
    } else if t == D3D_SVT_MIN10FLOAT {
        Type::Min10Float
    } else if t == D3D_SVT_MIN16INT {
        Type::Min16Int
    } else if t == D3D_SVT_MIN12INT {
        Type::Min12Int
    } else if t == D3D_SVT_MIN16UINT {
        Type::Min16Uint
    } else {
        Type::Unsupported
    }
}

/// The type that a description stands for, a structure having the name and the
/// members given.
pub open spec fn described(desc: TypeDesc, name: String, members: Vec<Member>) -> Type {
    if desc.class == D3D_SVC_SCALAR {
        scalar(desc.ty)
    } else if desc.class == D3D_SVC_VECTOR {
        Type::Vector(Vector { ty: Box::new(scalar(desc.ty)), len: desc.columns as usize })
    } else if desc.class == D3D_SVC_MATRIX_COLUMNS {
        Type::Matrix(
            Matrix {
                ty: Box::new(scalar(desc.ty)),
                columns: desc.columns as usize,
                rows: desc.rows as usize,
                major: MatrixMajor::Columns,
            },
        )
    } else if desc.class == D3D_SVC_MATRIX_ROWS {
        Type::Matrix(
            Matrix {
                ty: Box::new(scalar(desc.ty)),
                columns: desc.columns as usize,
                rows: desc.rows as usize,
                major: MatrixMajor::Rows,
            },
        )
    } else if desc.class == D3D_SVC_STRUCT {
        Type::Struct(Struct { name, members })
    } else {
        Type::Unsupported
    }
}

/// What reading the type of a variable gives for a structure, from the outcome
/// of reading its name and its members.
pub open spec fn structure(
    name: Result<String, Error>,
    members: Result<Vec<Member>, Error>,
) -> Result<
    Type,
    Error,
> {
    match name {
        Err(e) => Err(e),
        Ok(n) => match members {
            Err(e) => Err(e),
            Ok(m) => Ok(Type::Struct(Struct { name: n, members: m })),
        },
    }
}

impl Type {
    /// The scalar type that stands for a value of the native layer; values that
    /// are not known are unsupported.
    pub fn svt(t: i32) -> (r: Self)
        ensures
            r == scalar(t),
    {
        if t == D3D_SVT_VOID {
            Type::Void
        } else if t == D3D_SVT_BOOL {
            Type::Bool
        } else if t == D3D_SVT_INT {
            Type::Int
        } else if t == D3D_SVT_UINT {
            Type::Uint
        } else if t == D3D_SVT_FLOAT {
            Type::Float
        } else if t == D3D_SVT_STRING {
            Type::String
        } else if t == D3D_SVT_MIN8FLOAT {
            Type::Min8Float
        } else if t == D3D_SVT_MIN10FLOAT {
            Type::Min10Float
        } else if t == D3D_SVT_MIN16INT {
            Type::Min16Int
        } else if t == D3D_SVT_MIN12INT {
            Type::Min12Int
        } else if t == D3D_SVT_MIN16UINT {
            Type::Min16Uint
        } else {
            Type::Unsupported
        }
    }

    /// The type that is neither a structure nor unknown by its class.
    fn plain(desc: &TypeDesc) -> (r: Option<Self>)
        ensures
            desc.class == D3D_SVC_STRUCT ==> r.is_none(),
            desc.class != D3D_SVC_STRUCT ==> r.is_some() && forall|name: String, members: Vec<Member>|
                r.unwrap() == #[trigger] described(*desc, name, members),
    {
        if desc.class == D3D_SVC_SCALAR {
            Some(Self::svt(desc.ty))
        } else if desc.class == D3D_SVC_VECTOR {
            Some(
                Type::Vector(
                    Vector { ty: Box::new(Self::svt(desc.ty)), len: desc.columns as usize },
                ),
            )
        } else if desc.class == D3D_SVC_MATRIX_COLUMNS {
            Some(
                Type::Matrix(
                    Matrix {
                        ty: Box::new(Self::svt(desc.ty)),
                        columns: desc.columns as usize,
                        rows: desc.rows as usize,
                        major: MatrixMajor::Columns,
                    },
                ),
            )
        } else if desc.class == D3D_SVC_MATRIX_ROWS {
            Some(
                Type::Matrix(
                    Matrix {
                        ty: Box::new(Self::svt(desc.ty)),
                        columns: desc.columns as usize,
                        rows: desc.rows as usize,
                        major: MatrixMajor::Rows,
                    },
                ),
            )
        } else if desc.class == D3D_SVC_STRUCT {
            None
        } else {
            Some(Type::Unsupported)
        }
    }

    /// Reads the type of a variable from its description.
    ///
    /// For a structure the name is read by `name`, and the members, whose number
    /// the description gives, by `members`; the first of the two that fails ends
    /// the reading with its error. For any other class neither is read.
    pub fn from_reflection<N, M>(desc: &TypeDesc, name: N, members: M) -> (r: Result<Self, Error>)
        where N: FnOnce() -> Result<String, Error>, M: FnOnce(u32) -> Result<Vec<Member>, Error>
        requires
            name.requires(()),
            members.requires((desc.members,)),
        ensures
            desc.class != D3D_SVC_STRUCT ==> r.is_ok() && forall|n: String, m: Vec<Member>|
                r.unwrap() == #[trigger] described(*desc, n, m),
            desc.class == D3D_SVC_STRUCT ==> exists|n: Result<String, Error>| #[trigger]
                name.ensures((), n) && match n {
                    Err(e) => r == Err::<Type, Error>(e),
                    Ok(_) => exists|m: Result<Vec<Member>, Error>| #[trigger]
                        members.ensures((desc.members,), m) && r == structure(n, m),
                },
    {
        match Self::plain(desc) {
            Some(t) => Ok(t),
            None => {
                let n = name();
                match n {
                    Err(e) => Err(e),
                    Ok(text) => {
                        let m = members(desc.members);
                        assert(members.ensures((desc.members,), m));
                        match m {
                            Err(e) => Err(e),
                            Ok(list) => Ok(Type::Struct(Struct { name: text, members: list })),
                        }
                    },
                }
            },
        }
    }

    /// Reads the type of a parameter from its description. A structure has no
    /// name and no members here.
    pub fn from_parameter_desc(desc: &TypeDesc) -> (r: Result<Self, Error>)
        ensures
            r.is_ok(),
            desc.class != D3D_SVC_STRUCT ==> forall|n: String, m: Vec<Member>|
                r.unwrap() == #[trigger] described(*desc, n, m),
            desc.class == D3D_SVC_STRUCT ==> (r.unwrap() matches Type::Struct(s) && s.name@.len() == 0
                && s.members@.len() == 0),
    {
        match Self::plain(desc) {
            Some(t) => Ok(t),
            None => Ok(Type::Struct(Struct { name: String::new(), members: Vec::new() })),
        }
    }
}

#[derive(Clone, Copy, PartialEq, Eq, Structural, Debug)]
pub struct ThreadGroupSize {
    pub x: u32,
    pub y: u32,
    pub z: u32,
}

impl ThreadGroupSize {
    /// The number of threads in a group.
    pub fn total_size(&self) -> (r: u32)
        requires
            self.x * self.y * self.z <= u32::MAX,
        ensures
            r == self.x * self.y * self.z,
    {
        let x = self.x as u64;
        let y = self.y as u64;
        let z = self.z as u64;
        assert(x * y <= 0xffff_ffff * 0xffff_ffff) by (nonlinear_arith)
            requires
                x <= 0xffff_ffff,
                y <= 0xffff_ffff,
        ;
        let xy: u64 = x * y;
        if z == 0 {
            assert(xy * z == 0) by (nonlinear_arith)
                requires
                    z == 0,
            ;
            0
        } else {
            assert(xy <= xy * z) by (nonlinear_arith)
                requires
                    z >= 1,
                    xy >= 0,
            ;
            (xy * z) as u32
        }
    }
}

/// Whether `reads` is what reading `count` items one after the other gave, up
/// to the first that failed, and `r` what is made of it: all the items, or the
/// first error.
pub open spec fn all_read<T, F>(read: F, count: u32, reads: Seq<Result<T, Error>>, r: Result<
    Vec<T>,
    Error,
>) -> bool where F: Fn(u32) -> Result<T, Error> {
    &&& reads.len() <= count
    &&& forall|i: int| 0 <= i < reads.len() ==> read.ensures((i as u32,), #[trigger] reads[i])
    &&& forall|i: int| 0 <= i < reads.len() - 1 ==> (#[trigger] reads[i]).is_ok()
    &&& match r {
        Ok(items) => {
            &&& reads.len() == count
            &&& items@.len() == count
            &&& forall|i: int| 0 <= i < count ==> reads[i] == Ok::<T, Error>(#[trigger] items@[i])
        },
        Err(e) => reads.len() > 0 && reads.last() == Err::<T, Error>(e),
    }
}

/// Reads `count` items one after the other, by `read`, which is handed the
/// index. The first item that fails ends the reading with its error.
pub fn read_all<T, F>(count: u32, read: F) -> (r: Result<Vec<T>, Error>)
    where F: Fn(u32) -> Result<T, Error>
    requires
        forall|i: u32| i < count ==> #[trigger] read.requires((i,)),
    ensures
        exists|reads: Seq<Result<T, Error>>| #[trigger] all_read(read, count, reads, r),
{
    let mut items: Vec<T> = Vec::new();
    let mut i: u32 = 0;
    let ghost mut reads: Seq<Result<T, Error>> = Seq::empty();
    while i < count
        invariant
            i <= count,
            reads.len() == i,
            items@.len() == i,
            forall|j: u32| j < count ==> #[trigger] read.requires((j,)),
            forall|j: int| 0 <= j < i ==> read.ensures((j as u32,), #[trigger] reads[j]),
            forall|j: int| 0 <= j < i ==> reads[j] == Ok::<T, Error>(#[trigger] items@[j]),
            forall|j: int| 0 <= j < i ==> (#[trigger] reads[j]).is_ok(),
        decreases count - i,
    {
        let item = read(i);
        let ghost before = reads;
        let ghost items_before = items@;
        proof {
            reads = reads.push(item);
            assert(forall|j: int| 0 <= j < i ==> reads[j] == before[j]);
        }
        match item {
            Ok(value) => {
                items.push(value);
                proof {
                    assert(forall|j: int| 0 <= j < i ==> items@[j] == items_before[j]);
                }
            },
            Err(e) => {
                let r = Err(e);
                proof {
                    assert(all_read(read, count, reads, r));
                }
                return r;
            },
        }
        i += 1;
    }
    let r = Ok(items);
    proof {
        assert(all_read(read, count, reads, r));
    }
    r
}

/// The items of `reads` that succeeded, in order.
pub open spec fn successes<T>(reads: Seq<Result<T, Error>>) -> Seq<T>
    decreases reads.len(),
{
    if reads.len() == 0 {
        seq![]
    } else {
        match reads.last() {
            Ok(item) => successes(reads.drop_last()).push(item),
            Err(_) => successes(reads.drop_last()),
        }
    }
}

/// Whether `reads` is what reading `count` items one after the other gave.
pub open spec fn each_read<T, F>(read: F, count: u32, reads: Seq<Result<T, Error>>) -> bool where
    F: Fn(u32) -> Result<T, Error>,
 {
    reads.len() == count && forall|i: int|
        0 <= i < reads.len() ==> read.ensures((i as u32,), #[trigger] reads[i])
}

/// Reads `count` items one after the other, by `read`, which is handed the
/// index, and keeps those that succeed.
pub fn read_each<T, F>(count: u32, read: F) -> (r: Vec<T>)
    where F: Fn(u32) -> Result<T, Error>
    requires
        forall|i: u32| i < count ==> #[trigger] read.requires((i,)),
    ensures
        exists|reads: Seq<Result<T, Error>>| #[trigger]
            each_read(read, count, reads) && r@ == successes(reads),
{
    let mut items: Vec<T> = Vec::new();
    let mut i: u32 = 0;
    let ghost mut reads: Seq<Result<T, Error>> = Seq::empty();
    while i < count
        invariant
            i <= count,
            reads.len() == i,
            forall|j: u32| j < count ==> #[trigger] read.requires((j,)),
            forall|j: int| 0 <= j < i ==> read.ensures((j as u32,), #[trigger] reads[j]),
            items@ == successes(reads),
        decreases count - i,
    {
        let item = read(i);
        let ghost before = reads;
        proof {
            reads = reads.push(item);
            assert(reads.drop_last() =~= before);
            assert(forall|j: int| 0 <= j < i ==> reads[j] == before[j]);
        }
        match item {
            Ok(value) => {
                items.push(value);
            },
            Err(_) => {},
        }
        i += 1;
    }
    proof {
        assert(each_read(read, count, reads) && items@ == successes(reads));
    }
    items
}

/// A native object that reflects on compiled shader code.
pub trait ReflectionType: Sized {
    /// The identity of the native object.
    spec fn raw(&self) -> RawHandle;

    fn new(this: RawHandle) -> (r: Self)
        ensures
            r.raw() == this,
    ;
}

/// What creating a reflection gives for the outcome of the native call.
pub open spec fn reflected(created: Result<RawHandle, Error>) -> Result<ShaderReflection, Error> {
    match created {
        Ok(raw) => Ok(ShaderReflection { raw }),
        Err(e) => Err(e),
    }
}

/// The reflection on one shader.
#[derive(Clone, Copy, PartialEq, Eq, Structural, Debug)]
pub struct ShaderReflection {
    pub raw: RawHandle,
}

impl ShaderReflection {
    /// Takes the outcome of the native call that creates the reflection on
    /// `data`, read in `encoding`.
    pub fn new(utils: &Utils, data: &[u8], encoding: u32, created: Result<RawHandle, Error>) -> (r:
        Result<Self, Error>)
        ensures
            r == reflected(created),
    {
        match created {
            Ok(raw) => Ok(ShaderReflection { raw }),
            Err(e) => Err(e),
        }
    }

    /// Creates the reflection on the shader that a compilation produced.
    ///
    /// The reflection output of the result is fetched as a buffer; where there
    /// is none, or fetching it fails, that error is returned. Else the
    /// reflection is created by `create`, which is handed the bytes of the
    /// buffer and the encoding UTF-8.
    pub fn from_compile_result<G, C>(
        utils: &Utils,
        result: &CompileResult,
        has_output: bool,
        get_output: G,
        create: C,
    ) -> (r: Result<Self, Error>)
        where
            G: FnOnce(i32) -> Result<RawOutput, Error>,
            C: FnOnce(Vec<u8>, u32) -> Result<RawHandle, Error>,
        requires
            get_output.requires((DXC_OUT_REFLECTION,)),
            forall|data: Vec<u8>| #[trigger] create.requires((data, DXC_CP_UTF8)),
        ensures
            !has_output ==> r == Err::<ShaderReflection, Error>(
                Error { code: crate::foundation::E_ABORT },
            ),
            has_output ==> exists|o: Result<RawOutput, Error>| #[trigger]
                get_output.ensures((DXC_OUT_REFLECTION,), o) && match blob_of_output(o) {
                    Err(e) => r == Err::<ShaderReflection, Error>(e),
                    Ok(blob) => exists|created: Result<RawHandle, Error>| #[trigger]
                        create.ensures(
                            (blob.data, DXC_CP_UTF8),
                            created,
                        ) && r == reflected(created),
                },
    {
        match result.get_blob(DXC_OUT_REFLECTION, has_output, get_output) {
            Err(e) => Err(e),
            Ok(blob) => {
                let ghost handed = blob.data;
                let created = create(blob.data, DXC_CP_UTF8);
                assert(create.ensures((handed, DXC_CP_UTF8), created));
                match created {
                    Ok(raw) => Ok(ShaderReflection { raw }),
                    Err(e) => Err(e),
                }
            },
        }
    }

    /// Wraps the size of the thread group that the native layer reports.
    pub fn thread_group_size(&self, x: u32, y: u32, z: u32) -> (r: ThreadGroupSize)
        ensures
            r == (ThreadGroupSize { x, y, z }),
    {
        ThreadGroupSize { x, y, z }
    }

    /// The input parameters of the shader: `count` of them, each read by `read`.
    pub fn input_parameters<F>(&self, count: u32, read: F) -> (r: Result<
        Vec<SignatureParameterDesc>,
        Error,
    >)
        where F: Fn(u32) -> Result<SignatureParameterDesc, Error>
        requires
            forall|i: u32| i < count ==> #[trigger] read.requires((i,)),
        ensures
            exists|reads: Seq<Result<SignatureParameterDesc, Error>>| #[trigger]
                all_read(read, count, reads, r),
    {
        read_all(count, read)
    }

    /// The resources that the shader binds: `count` of them, each read by `read`.
    pub fn resource_bind_desc<F>(&self, count: u32, read: F) -> (r: Result<
        Vec<ShaderInputBindDesc>,
        Error,
    >)
        where F: Fn(u32) -> Result<ShaderInputBindDesc, Error>
        requires
            forall|i: u32| i < count ==> #[trigger] read.requires((i,)),
        ensures
            exists|reads: Seq<Result<ShaderInputBindDesc, Error>>| #[trigger]
                all_read(read, count, reads, r),
    {
        read_all(count, read)
    }

    /// The constant buffers of the shader: `count` of them, each read by `read`.
    pub fn constant_buffer_descs<F>(&self, count: u32, read: F) -> (r: Result<
        Vec<ShaderBufferDesc>,
        Error,
    >)
        where F: Fn(u32) -> Result<ShaderBufferDesc, Error>
        requires
            forall|i: u32| i < count ==> #[trigger] read.requires((i,)),
        ensures
            exists|reads: Seq<Result<ShaderBufferDesc, Error>>| #[trigger]
                all_read(read, count, reads, r),
    {
        read_all(count, read)
    }

    /// The output parameters of the shader: `count` of them, each read by `read`.
    pub fn output_parameter_descs<F>(&self, count: u32, read: F) -> (r: Result<
        Vec<SignatureParameterDesc>,
        Error,
    >)
        where F: Fn(u32) -> Result<SignatureParameterDesc, Error>
        requires
            forall|i: u32| i < count ==> #[trigger] read.requires((i,)),
        ensures
            exists|reads: Seq<Result<SignatureParameterDesc, Error>>| #[trigger]
                all_read(read, count, reads, r),
    {
        read_all(count, read)
    }
}

impl ReflectionType for ShaderReflection {
    open spec fn raw(&self) -> RawHandle {
        self.raw
    }

    fn new(this: RawHandle) -> (r: Self) {
        ShaderReflection { raw: this }
    }
}

/// Whether `at` is the place of the first `@` of `name` behind its first two
/// characters.
pub open spec fn is_name_end(name: Seq<char>, at: int) -> bool {
    &&& 2 <= at < name.len()
    &&& name[at] == '@'
    &&& forall|i: int| 2 <= i < at ==> #[trigger] name[i] != '@'
}

/// Whether `name` is a decorated name: it starts with U+0001 and `?`, and has
/// an `@` behind them.
pub open spec fn is_mangled(name: Seq<char>) -> bool {
    &&& name.len() >= 2
    &&& name[0] == '\u{1}'
    &&& name[1] == '?'
    &&& exists|at: int| 2 <= at < name.len() && #[trigger] name[at] == '@'
}

/// The plain name in a decorated name: what stands between its first two
/// characters and the first `@` behind them.
pub fn demangle(src: &str) -> (r: &str)
    requires
        is_mangled(src@),
    ensures
        exists|at: int| is_name_end(src@, at) && r@ == #[trigger] src@.subrange(2, at),
{
    let len = src.unicode_len();
    let mut at: usize = 2;
    while at < len
        invariant
            2 <= at <= len,
            len == src@.len(),
            forall|i: int| 2 <= i < at ==> #[trigger] src@[i] != '@',
        decreases len - at,
    {
        if src.get_char(at) == '@' {
            let r = src.substring_char(2, at);
            assert(is_name_end(src@, at as int));
            return r;
        }
        at += 1;
    }
    proof {
        let k = choose|k: int| 2 <= k < src@.len() && #[trigger] src@[k] == '@';
        assert(src@[k] != '@');
    }
    src
}

#[derive(Debug)]
pub struct FunctionParameter {
    pub name: String,
    pub semantic_name: String,
    pub ty: Type,
}

/// One function of a library, with its plain name.
#[derive(Debug)]
pub struct Function {
    pub object: RawHandle,
    pub name: String,
}

impl Function {
    /// Wraps a function of a library, whose decorated name is `mangled`.
    pub fn new(object: RawHandle, mangled: &str) -> (r: Self)
        requires
            is_mangled(mangled@),
        ensures
            r.object == object,
            exists|at: int| is_name_end(
                mangled@,
                at,
            ) && r.name@ == #[trigger] mangled@.subrange(2, at),
    {
        Function { object, name: demangle(mangled).to_owned() }
    }

    pub fn name(&self) -> (r: &str)
        ensures
            r@ == self.name@,
    {
        self.name.as_str()
    }

    /// The parameters of the function that can be read: of `count`, each read by
    /// `read`, those that succeed.
    pub fn parameters<F>(&self, count: u32, read: F) -> (r: Vec<FunctionParameter>)
        where F: Fn(u32) -> Result<FunctionParameter, Error>
        requires
            forall|i: u32| i < count ==> #[trigger] read.requires((i,)),
        ensures
            exists|reads: Seq<Result<FunctionParameter, Error>>| #[trigger]
                each_read(read, count, reads) && r@ == successes(reads),
    {
        read_each(count, read)
    }

    /// The resources that the function binds and that can be read: of `count`,
    /// each read by `read`, those that succeed.
    pub fn resource_bind_descs<F>(&self, count: u32, read: F) -> (r: Vec<ShaderInputBindDesc>)
        where F: Fn(u32) -> Result<ShaderInputBindDesc, Error>
        requires
            forall|i: u32| i < count ==> #[trigger] read.requires((i,)),
        ensures
            exists|reads: Seq<Result<ShaderInputBindDesc, Error>>| #[trigger]
                each_read(read, count, reads) && r@ == successes(reads),
    {
        read_each(count, read)
    }

    /// The constant buffers of the function that can be read: of `count`, each
    /// read by `read`, those that succeed.
    pub fn constant_buffer_descs<F>(&self, count: u32, read: F) -> (r: Vec<ShaderBufferDesc>)
        where F: Fn(u32) -> Result<ShaderBufferDesc, Error>
        requires
            forall|i: u32| i < count ==> #[trigger] read.requires((i,)),
        ensures
            exists|reads: Seq<Result<ShaderBufferDesc, Error>>| #[trigger]
                each_read(read, count, reads) && r@ == successes(reads),
    {
        read_each(count, read)
    }
}

/// The reflection on a library of shaders.
#[derive(Clone, Copy, PartialEq, Eq, Structural, Debug)]
pub struct LibraryReflection {
    pub raw: RawHandle,
}

impl LibraryReflection {
    /// Takes the outcome of the native call that creates the reflection on
    /// `data`, read in `encoding`.
    pub fn new(utils: &Utils, data: &[u8], encoding: u32, created: Result<RawHandle, Error>) -> (r:
        Result<Self, Error>)
        ensures
            r == match created {
                Ok(raw) => Ok::<LibraryReflection, Error>(LibraryReflection { raw }),
                Err(e) => Err::<LibraryReflection, Error>(e),
            },
    {
        match created {
            Ok(raw) => Ok(LibraryReflection { raw }),
            Err(e) => Err(e),
        }
    }

    /// The functions of the library that can be read: of `count`, each read by
    /// `read`, those that succeed.
    pub fn functions<F>(&self, count: u32, read: F) -> (r: Vec<Function>)
        where F: Fn(u32) -> Result<Function, Error>
        requires
            forall|i: u32| i < count ==> #[trigger] read.requires((i,)),
        ensures
            exists|reads: Seq<Result<Function, Error>>| #[trigger]
                each_read(read, count, reads) && r@ == successes(reads),
    {
        read_each(count, read)
    }
}

impl ReflectionType for LibraryReflection {
    open spec fn raw(&self) -> RawHandle {
        self.raw
    }

    fn new(this: RawHandle) -> (r: Self) {
        LibraryReflection { raw: this }
    }
}

} // verus!
