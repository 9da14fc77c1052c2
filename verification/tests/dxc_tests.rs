use dxwr::d3d::{
    DXC_CP_UTF8, DXC_OUT_DISASSEMBLY, DXC_OUT_ERRORS, DXC_OUT_HLSL, DXC_OUT_OBJECT, DXC_OUT_PDB,
    DXC_OUT_REFLECTION, DXC_OUT_ROOT_SIGNATURE, DXC_OUT_SHADER_HASH, DXC_OUT_TEXT,
};
use dxwr::dxc::{
    Arguments, CompileResult, Compiler, ContainerReflection, Part, PartKind, RawOutput, ShaderHash,
    Utils,
};
use dxwr::foundation::{E_ABORT, E_POINTER};
use dxwr::{Blob, BlobType, Error, LibraryReflection, RawHandle, RefBlob, ShaderReflection};
use std::cell::Cell;

fn utils() -> Utils {
    Utils::new(Ok(RawHandle::new(0x10))).unwrap()
}

fn result() -> CompileResult {
    CompileResult { raw: RawHandle::new(0x11) }
}

fn output(bytes: &[u8]) -> Result<RawOutput, Error> {
    Ok(RawOutput { raw: RawHandle::new(0x12), data: Some(bytes.to_vec()) })
}

#[test]
fn arguments_start_from_the_defaults() {
    assert_eq!(Arguments::new().build(), vec!["-O3", "-HV", "2021"]);
}

#[test]
fn arguments_are_laid_out_in_their_order() {
    let args = Arguments::new()
        .source_name("shader.hlsl")
        .target("ps_6_0")
        .entry_point("main")
        .include_dir("inc")
        .include_dir("more")
        .define("A=1")
        .define("B")
        .optimization(Some(1))
        .strict_mode(true)
        .no_legacy_cbuf_layout(true)
        .no_warnings(true)
        .validation(false)
        .debug_info(true)
        .hash_considering_only_binary(true)
        .hash_considering_source_info(true)
        .embed_debug(true)
        .warnings_as_errors(true)
        .hlsl_version("2018")
        .extra(&["-Zpr", "-enable-16bit-types"]);
    assert_eq!(
        args.build(),
        vec![
            "shader.hlsl", "-T", "ps_6_0", "-E", "main", "-I", "inc", "-I", "more", "-D", "A=1", "-D", "B",
            "-O1", "-Ges", "-no-legacy-cbuf-layout", "-no-warnings", "-Vd", "-Zi", "-Zsb", "-Zss",
            "-Qembed_debug", "-WX", "-HV", "2018", "-Zpr", "-enable-16bit-types",
        ]
    );
}

#[test]
fn arguments_spell_each_optimization_level() {
    for (level, flag) in [(None, "-Od"), (Some(0), "-O0"), (Some(1), "-O1"), (Some(2), "-O2"), (Some(3), "-O3")] {
        assert_eq!(Arguments::new().optimization(level).build()[0], flag);
    }
}

#[test]
fn extra_arguments_are_replaced_not_appended() {
    let args = Arguments::new().extra(&["-a"]).extra(&["-b", "-c"]);
    assert_eq!(args.build(), vec!["-O3", "-HV", "2021", "-b", "-c"]);
}

#[test]
fn output_kinds_have_the_native_values() {
    assert_eq!(
        [DXC_OUT_OBJECT, DXC_OUT_ERRORS, DXC_OUT_PDB, DXC_OUT_SHADER_HASH, DXC_OUT_DISASSEMBLY],
        [1, 2, 3, 4, 5]
    );
    assert_eq!(
        [DXC_OUT_HLSL, DXC_OUT_TEXT, DXC_OUT_REFLECTION, DXC_OUT_ROOT_SIGNATURE],
        [6, 7, 8, 9],
    );
    assert_eq!(DXC_CP_UTF8, 65001);
    assert_eq!((E_ABORT as u32, E_POINTER as u32), (0x8000_4004, 0x8000_4003));
}

#[test]
fn compile_hands_source_arguments_and_handler_to_the_compiler() {
    let compiler = Compiler::new(&utils(), Ok(RawHandle::new(0x20))).unwrap();
    assert_eq!(compiler.utils, utils());
    let args = Arguments::new().target("cs_6_0").entry_point("main");
    let r = compiler.compile(
        b"void main() {}",
        &args,
        || Ok(RawHandle::new(0x21)),
        |buffer, argv, handler| {
            assert_eq!(buffer.data, b"void main() {}");
            assert_eq!(buffer.encoding, DXC_CP_UTF8);
            assert_eq!(argv, vec!["-T", "cs_6_0", "-E", "main", "-O3", "-HV", "2021"]);
            assert_eq!(handler, RawHandle::new(0x21));
            Ok(RawHandle::new(0x22))
        },
    );
    assert_eq!(r, Ok(CompileResult { raw: RawHandle::new(0x22) }));
    assert_eq!(r.unwrap().result(), RawHandle::new(0x22));
    let r = compiler.compile(b"", &args, || Err(Error::new(-1)), |_, _, _| unreachable!());
    assert_eq!(r, Err(Error::new(-1)));
    let r = compiler.compile(b"", &args, || Ok(RawHandle::new(1)), |_, _, _| Err(Error::new(-2)));
    assert_eq!(r, Err(Error::new(-2)));
    assert_eq!(Compiler::new(&utils(), Err(Error::new(-3))), Err(Error::new(-3)));
    assert_eq!(Utils::new(Err(Error::new(-4))), Err(Error::new(-4)));
}

#[test]
fn missing_output_is_an_abort() {
    let r = result();
    assert_eq!(r.object(false, |_| unreachable!()), Err(Error::new(E_ABORT)));
    assert_eq!(r.errors(false, |_| unreachable!()), Err(Error::new(E_ABORT)));
    assert_eq!(r.shader_hash(false, |_| unreachable!()), Err(Error::new(E_ABORT)));
    assert!(r.has_output(DXC_OUT_OBJECT, true));
    assert!(!r.has_output(DXC_OUT_PDB, false));
}

#[test]
fn blob_outputs_are_fetched_by_their_kind() {
    let r = result();
    let kinds = Cell::new(vec![]);
    let fetch = |kind: i32| {
        let mut seen = kinds.take();
        seen.push(kind);
        kinds.set(seen);
        output(&[1, 2, 3])
    };
    let object = r.object(true, fetch).unwrap();
    assert_eq!(object, Blob { raw: RawHandle::new(0x12), data: vec![1, 2, 3] });
    assert_eq!((object.len(), object.is_empty(), object.as_slice()), (3, false, &[1u8, 2, 3][..]));
    assert_eq!(object.handle(), RawHandle::new(0x12));
    r.pdb(true, fetch).unwrap();
    r.root_signature(true, fetch).unwrap();
    assert_eq!(kinds.take(), vec![DXC_OUT_OBJECT, DXC_OUT_PDB, DXC_OUT_ROOT_SIGNATURE]);
    let null = |_| Ok(RawOutput { raw: RawHandle::new(0x12), data: None });
    assert_eq!(r.object(true, null), Err(Error::new(E_POINTER)));
    assert_eq!(r.object(true, |_| Err(Error::new(-9))), Err(Error::new(-9)));
}

#[test]
fn text_outputs_are_decoded_as_utf8() {
    let r = result();
    assert_eq!(
        r.errors(true, |k| { assert_eq!(k, DXC_OUT_ERRORS); output(b"error: x") }),
        Ok(String::from("error: x")),
    );
    assert_eq!(
        r.disassembly(
            true,
            |k| { assert_eq!(k, DXC_OUT_DISASSEMBLY); output("; dxil \u{e9}".as_bytes()) },
        ),
        Ok(String::from("; dxil \u{e9}")),
    );
    assert_eq!(
        r.hlsl(true, |k| { assert_eq!(k, DXC_OUT_HLSL); output(b"float4") }),
        Ok(String::from("float4")),
    );
    assert_eq!(
        r.text(true, |k| { assert_eq!(k, DXC_OUT_TEXT); output(&[b'a', 0xff, b'b']) }),
        Ok(String::from("a\u{fffd}b")),
    );
    assert_eq!(
        r.text(true, |_| Ok(RawOutput { raw: RawHandle::new(1), data: None })),
        Ok(String::new()),
    );
    assert_eq!(r.text(true, |_| Err(Error::new(-3))), Err(Error::new(-3)));
}

#[test]
fn shader_hash_is_read_from_its_layout() {
    let mut bytes = vec![0x01, 0x00, 0x00, 0x80];
    bytes.extend(1..=16u8);
    bytes.push(0xee);
    let hash = result().shader_hash(
        true,
        |k| { assert_eq!(k, DXC_OUT_SHADER_HASH); output(&bytes) },
    ).unwrap();
    assert_eq!(hash.flags, 0x8000_0001);
    assert_eq!(hash.digest, [1, 2, 3, 4, 5, 6, 7, 8, 9, 10, 11, 12, 13, 14, 15, 16]);
    assert_eq!(ShaderHash::from_bytes(&bytes), hash);
    assert_eq!(result().shader_hash(true, |_| output(&bytes[..19])), Err(Error::new(E_POINTER)));
}

#[test]
fn reflection_is_created_from_the_reflection_output() {
    let r = ShaderReflection::from_compile_result(
        &utils(),
        &result(),
        true,
        |k| { assert_eq!(k, DXC_OUT_REFLECTION); output(&[9, 8, 7]) },
        |data, encoding| { assert_eq!((data, encoding), (vec![9, 8, 7], DXC_CP_UTF8)); Ok(RawHandle::new(0x30)) },
    );
    assert_eq!(r, Ok(ShaderReflection { raw: RawHandle::new(0x30) }));
    let r = ShaderReflection::from_compile_result(
        &utils(),
        &result(),
        false,
        |_| unreachable!(),
        |_,
        _| unreachable!(),
    );
    assert_eq!(r, Err(Error::new(E_ABORT)));
    let r = ShaderReflection::from_compile_result(
        &utils(),
        &result(),
        true,
        |_| output(&[]),
        |_,
        _| Err(Error::new(-4)),
    );
    assert_eq!(r, Err(Error::new(-4)));
}

#[test]
fn ref_blob_keeps_the_bytes_it_was_given() {
    let data = [1u8, 2, 3, 4];
    assert_eq!(RefBlob::pinned_len(&data), 4);
    let blob = RefBlob::new(&utils(), &data, DXC_CP_UTF8, Ok(RawHandle::new(0x40))).unwrap();
    assert_eq!(
        (blob.len(), blob.is_empty(), blob.as_slice(), blob.handle()),
        (4, false, &data[..], RawHandle::new(0x40)),
    );
    assert!(RefBlob::new(&utils(), &[], 0, Ok(RawHandle::new(1))).unwrap().is_empty());
    assert_eq!(RefBlob::new(&utils(), &data, 0, Err(Error::new(-1))), Err(Error::new(-1)));
}

#[test]
fn part_kinds_are_four_character_codes() {
    assert_eq!(PartKind::new(['D', 'X', 'B', 'C']), PartKind(PartKind::DXBC));
    assert_eq!(PartKind::fourcc(b'D', b'X', b'I', b'L'), PartKind(PartKind::DXIL));
    assert_eq!(PartKind::DXBC, 0x4342_5844);
    let table = [
        (
            PartKind::DXBC,
            "DXBC"
        ), (PartKind::RESOURCE_DEF, "RDEF"), (PartKind::INPUT_SIGNATURE, "ISG1"),
        (PartKind::OUTPUT_SIGNATURE, "OSG1"), (PartKind::PATCH_CONSTANT_SIGNATURE, "PSG1"),
        (PartKind::SHADER_STATISTICS, "STAT"), (PartKind::SHADER_DEBUG_INFO, "ILDB"),
        (PartKind::SHADER_DEBUG_NAME, "ILDN"), (PartKind::FEATURE_INFO, "SFI0"),
        (
            PartKind::PRIVATE_DATA,
            "PRIV"
        ), (PartKind::ROOT_SIGNATURE, "RTS0"), (PartKind::DXIL, "DXIL"),
        (PartKind::PIPELINE_STATE_VALIDATION, "PSV0"), (PartKind::RUNTIME_DATA, "RDAT"),
        (PartKind::SHADER_HASH, "HASH"), (PartKind::SHADER_SOURCE_INFO, "SRCI"),
        (PartKind::SHADER_PDB_INFO, "PDBI"), (PartKind::COMPILER_VERSION, "VERS"),
    ];
    for (code, text) in table {
        let chars: Vec<char> = text.chars().collect();
        assert_eq!(PartKind(code).to_chars().to_vec(), chars);
        assert_eq!(PartKind::new([chars[0], chars[1], chars[2], chars[3]]), PartKind(code));
    }
}

#[test]
fn container_parts_that_fail_to_be_read_are_left_out() {
    let blob = Blob { raw: RawHandle::new(0x50), data: vec![] };
    let container = ContainerReflection::new(
        &blob,
        || Ok(RawHandle::new(0x51)),
        |reflection, loaded| { assert_eq!((reflection, loaded), (RawHandle::new(0x51), RawHandle::new(0x50))); Ok(()) },
    )
    .unwrap();
    let parts = container.parts(
        4,
        |i| if i == 1 { Err(Error::new(-1)) } else { Ok(PartKind::DXIL + i) },
        |i| if i == 2 { Err(Error::new(-2)) } else { Ok(Blob { raw: RawHandle::new(i as usize), data: vec![i as u8] }) },
    );
    assert_eq!(parts.len(), 2);
    assert_eq!(
        (parts[0].index, parts[0].kind, parts[0].container),
        (0, PartKind(PartKind::DXIL), RawHandle::new(0x51)),
    );
    assert_eq!((parts[1].index, parts[1].kind), (3, PartKind(PartKind::DXIL + 3)));
    assert_eq!(parts[1].content.data, vec![3]);
    assert!(container.parts(0, |_| unreachable!(), |_| unreachable!()).is_empty());
    assert_eq!(
        ContainerReflection::new(&blob, || Err(Error::new(-3)), |_, _| unreachable!()),
        Err(Error::new(-3)),
    );
    assert_eq!(
        ContainerReflection::new(&blob, || Ok(RawHandle::new(1)), |_, _| Err(Error::new(-4))),
        Err(Error::new(-4)),
    );
}

#[test]
fn compile_result_gives_its_reflection() {
    let r = result().reflection(
        &utils(),
        true,
        |k| { assert_eq!(k, DXC_OUT_REFLECTION); output(&[1, 2]) },
        |data, encoding| { assert_eq!((data, encoding), (vec![1, 2], DXC_CP_UTF8)); Ok(RawHandle::new(0x31)) },
    );
    assert_eq!(r, Ok(ShaderReflection { raw: RawHandle::new(0x31) }));
    let r = result().reflection(&utils(), false, |_| unreachable!(), |_, _| unreachable!());
    assert_eq!(r, Err(Error::new(E_ABORT)));
    let r = result().reflection(&utils(), true, |_| Err(Error::new(-9)), |_, _| unreachable!());
    assert_eq!(r, Err(Error::new(-9)));
}

#[test]
fn part_gives_the_reflection_that_was_asked_for() {
    let part = Part {
        index: 2,
        container: RawHandle::new(0x50),
        kind: PartKind(PartKind::DXIL),
        content: Blob { raw: RawHandle::new(0x51), data: vec![1, 2, 3] },
    };
    let shader: Result<ShaderReflection, Error> = part.reflection(Ok(RawHandle::new(0x52)));
    assert_eq!(shader, Ok(ShaderReflection { raw: RawHandle::new(0x52) }));
    let library: Result<LibraryReflection, Error> = part.reflection(Ok(RawHandle::new(0x53)));
    assert_eq!(library, Ok(LibraryReflection { raw: RawHandle::new(0x53) }));
    let failed: Result<ShaderReflection, Error> = part.reflection(Err(Error::new(-3)));
    assert_eq!(failed, Err(Error::new(-3)));
}
