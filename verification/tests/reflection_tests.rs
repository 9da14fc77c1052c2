use dxwr::d3d::{
    D3D_SVC_MATRIX_COLUMNS, D3D_SVC_MATRIX_ROWS, D3D_SVC_SCALAR, D3D_SVC_STRUCT, D3D_SVC_VECTOR,
    D3D_SVT_BOOL, D3D_SVT_FLOAT, D3D_SVT_INT, D3D_SVT_MIN10FLOAT, D3D_SVT_MIN12INT,
    D3D_SVT_MIN16INT,
    D3D_SVT_MIN16UINT, D3D_SVT_MIN8FLOAT, D3D_SVT_STRING, D3D_SVT_UINT, D3D_SVT_VOID,
};
use dxwr::dxc::Utils;
use dxwr::reflection::{
    demangle, read_all, read_each, Function, MatrixMajor, Member, ShaderInputBindData,
    ShaderInputBindDesc, SignatureParameterDesc, ThreadGroupSize, Type, TypeDesc,
};
use dxwr::{Error, LibraryReflection, RawHandle, ReflectionType, ShaderReflection};

fn desc(class: i32, ty: i32) -> TypeDesc {
    TypeDesc { class, ty, rows: 3, columns: 4, members: 2 }
}

#[test]
fn scalar_types_are_read_from_their_value() {
    let table = [
        (
            D3D_SVT_VOID,
            "Void"
        ), (D3D_SVT_BOOL, "Bool"), (D3D_SVT_INT, "Int"), (D3D_SVT_UINT, "Uint"),
        (D3D_SVT_FLOAT, "Float"), (D3D_SVT_STRING, "String"), (D3D_SVT_MIN8FLOAT, "Min8Float"),
        (
            D3D_SVT_MIN10FLOAT,
            "Min10Float"
        ), (D3D_SVT_MIN16INT, "Min16Int"), (D3D_SVT_MIN12INT, "Min12Int"),
        (D3D_SVT_MIN16UINT, "Min16Uint"), (5, "Unsupported"), (-1, "Unsupported"),
    ];
    for (value, name) in table {
        assert_eq!(format!("{:?}", Type::svt(value)), name);
    }
}

#[test]
fn types_are_read_from_their_class() {
    let no_name = || unreachable!();
    let no_members = |_| unreachable!();
    assert!(
        matches!(
            Type::from_reflection(&desc(D3D_SVC_SCALAR, D3D_SVT_FLOAT), no_name, no_members),
            Ok(Type::Float),
        ),
    );
    match Type::from_reflection(&desc(D3D_SVC_VECTOR, D3D_SVT_INT), no_name, no_members).unwrap() {
        Type::Vector(v) => {
            assert!(matches!(*v.ty, Type::Int));
            assert_eq!(v.len, 4);
        }
        _ => unreachable!(),
    }
    match Type::from_reflection(&desc(D3D_SVC_MATRIX_COLUMNS, D3D_SVT_FLOAT), no_name, no_members).unwrap() {
        Type::Matrix(m) => assert_eq!((m.columns, m.rows, m.major), (4, 3, MatrixMajor::Columns)),
        _ => unreachable!(),
    }
    match Type::from_parameter_desc(&desc(D3D_SVC_MATRIX_ROWS, D3D_SVT_UINT)).unwrap() {
        Type::Matrix(m) => {
            assert!(matches!(*m.ty, Type::Uint));
            assert_eq!((m.columns, m.rows, m.major), (4, 3, MatrixMajor::Rows));
        }
        _ => unreachable!(),
    }
    assert!(
        matches!(Type::from_reflection(&desc(99, 0), no_name, no_members), Ok(Type::Unsupported)),
    );
    assert!(matches!(Type::from_parameter_desc(&desc(99, 0)), Ok(Type::Unsupported)));
}

#[test]
fn structures_read_their_name_and_members() {
    let member = || Member { name: String::from("position"), ty: Type::Float, offset: 16 };
    let t = Type::from_reflection(
        &desc(D3D_SVC_STRUCT, 0),
        || Ok(String::from("Vertex")),
        |count| { assert_eq!(count, 2); Ok(vec![member(), member()]) },
    )
    .unwrap();
    match t {
        Type::Struct(s) => {
            assert_eq!(s.name, "Vertex");
            assert_eq!(s.members.len(), 2);
            assert_eq!((s.members[1].name.as_str(), s.members[1].offset), ("position", 16));
        }
        _ => unreachable!(),
    }
    let failed = Type::from_reflection(
        &desc(D3D_SVC_STRUCT, 0),
        || Err(Error::new(-1)),
        |_| unreachable!(),
    );
    assert_eq!(failed.unwrap_err(), Error::new(-1));
    let failed = Type::from_reflection(
        &desc(D3D_SVC_STRUCT, 0),
        || Ok(String::new()),
        |_| Err(Error::new(-2)),
    );
    assert_eq!(failed.unwrap_err(), Error::new(-2));
    match Type::from_parameter_desc(&desc(D3D_SVC_STRUCT, 0)).unwrap() {
        Type::Struct(s) => assert!(s.name.is_empty() && s.members.is_empty()),
        _ => unreachable!(),
    }
}

#[test]
fn thread_group_size_multiplies_out() {
    assert_eq!(ThreadGroupSize { x: 8, y: 8, z: 1 }.total_size(), 64);
    assert_eq!(ThreadGroupSize { x: 0, y: u32::MAX, z: u32::MAX }.total_size(), 0);
    assert_eq!(ThreadGroupSize { x: u32::MAX, y: u32::MAX, z: 0 }.total_size(), 0);
    assert_eq!(ThreadGroupSize { x: 65535, y: 65537, z: 1 }.total_size(), u32::MAX);
    let r = ShaderReflection { raw: RawHandle::new(1) };
    assert_eq!(r.thread_group_size(1, 2, 3), ThreadGroupSize { x: 1, y: 2, z: 3 });
}

#[test]
fn demangle_takes_the_plain_name() {
    assert_eq!(demangle("\u{1}?ray_gen@@YAXXZ"), "ray_gen");
    assert_eq!(demangle("\u{1}?@"), "");
    assert_eq!(demangle("\u{1}?d\u{e9}j\u{e0}@x@y"), "d\u{e9}j\u{e0}");
    let f = Function::new(RawHandle::new(3), "\u{1}?closest_hit@@YAXXZ");
    assert_eq!((f.name(), f.object), ("closest_hit", RawHandle::new(3)));
}

#[test]
fn read_all_stops_at_the_first_error() {
    assert_eq!(read_all(3, |i| Ok(i * 2)), Ok(vec![0, 2, 4]));
    assert_eq!(read_all(0, |_| -> Result<u32, Error> { unreachable!() }), Ok(vec![]));
    let reads = std::cell::Cell::new(0);
    let r = read_all(5, |i| {
        reads.set(reads.get() + 1);
        if i == 2 { Err(Error::new(-7)) } else { Ok(i) }
    });
    assert_eq!(r, Err(Error::new(-7)));
    assert_eq!(reads.get(), 3);
}

#[test]
fn read_each_keeps_what_succeeds() {
    assert_eq!(
        read_each(5, |i| if i % 2 == 0 { Ok(i) } else { Err(Error::new(-1)) }),
        vec![0, 2, 4],
    );
    assert!(read_each(3, |_| -> Result<u32, Error> { Err(Error::new(-1)) }).is_empty());
}

#[test]
fn shader_reflection_reads_its_lists() {
    let r = ShaderReflection::new(
        &Utils { raw: RawHandle::new(1) },
        &[1, 2],
        65001,
        Ok(RawHandle::new(0x10)),
    ).unwrap();
    assert_eq!(r.raw, RawHandle::new(0x10));
    let parameter = |i: u32| {
        Ok(SignatureParameterDesc {
            semantic_name: format!("TEXCOORD{i}"),
            semantic_index: i,
            system_value_type: 0,
            component_type: 3,
            mask: 0xf,
            read_write_mask: 0,
            stream: 0,
            min_precision: 0,
        })
    };
    let inputs = r.input_parameters(2, parameter).unwrap();
    assert_eq!((inputs.len(), inputs[1].semantic_name.as_str()), (2, "TEXCOORD1"));
    assert_eq!(r.output_parameter_descs(1, parameter).unwrap()[0].semantic_index, 0);
    assert_eq!(r.input_parameters(1, |_| Err(Error::new(-1))).unwrap_err(), Error::new(-1));
    let bind = |i: u32| {
        Ok(ShaderInputBindDesc::from_data(ShaderInputBindData {
            name: if i == 0 { Some(String::from("tex")) } else { None },
            ty: 2,
            bind_point: i,
            bind_count: 1,
            flags: 0xffff_ffff,
            return_type: 5,
            dimension: 4,
            num_samples: 0,
            space: 1,
            id: i,
        }))
    };
    let binds = r.resource_bind_desc(2, bind).unwrap();
    assert_eq!((binds[0].name.as_str(), binds[1].name.as_str()), ("tex", ""));
    assert_eq!((binds[1].flags, binds[1].bind_point, binds[1].space), (-1, 1, 1));
    assert!(r.constant_buffer_descs(0, |_| unreachable!()).unwrap().is_empty());
    assert_eq!(
        ShaderReflection::new(&Utils { raw: RawHandle::new(1) }, &[], 0, Err(Error::new(-2))),
        Err(Error::new(-2)),
    );
    assert_eq!(<ShaderReflection as ReflectionType>::new(RawHandle::new(4)).raw, RawHandle::new(4));
}

#[test]
fn library_reflection_lists_the_functions_that_can_be_read() {
    let lib = LibraryReflection::new(
        &Utils { raw: RawHandle::new(1) },
        &[],
        65001,
        Ok(RawHandle::new(0x20)),
    ).unwrap();
    let functions = lib.functions(3, |i| {
        if i == 1 { Err(Error::new(-1)) } else { Ok(Function::new(RawHandle::new(i as usize), "\u{1}?miss@@YAXXZ")) }
    });
    assert_eq!(functions.len(), 2);
    assert_eq!((functions[1].object, functions[1].name()), (RawHandle::new(2), "miss"));
    assert!(functions[0].parameters(2, |_| Err(Error::new(-1))).is_empty());
    assert!(functions[0].resource_bind_descs(0, |_| unreachable!()).is_empty());
    assert!(functions[0].constant_buffer_descs(0, |_| unreachable!()).is_empty());
    assert_eq!(
        <LibraryReflection as ReflectionType>::new(RawHandle::new(5)).raw,
        RawHandle::new(5),
    );
}
