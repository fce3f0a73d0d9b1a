use console_bridge::bindings::{
    needs_regeneration, render_module, symbol_is_declared, translate, BuildError,
};
use console_bridge::header::{parse_header, CParam};

fn hdr() -> Vec<u8> {
    b"void write(const char*);".to_vec()
}

fn target() -> Vec<u8> {
    b"aarch64-unknown-none".to_vec()
}

fn sysroot() -> Vec<u8> {
    b"/opt/cross".to_vec()
}

#[test]
fn translates_single_write_declaration() {
    let header = hdr();
    let target = target();
    let sysroot = sysroot();
    let m = translate(Some(&header), &target, Some(&sysroot)).unwrap();
    assert_eq!(m.target, b"aarch64-unknown-none".to_vec());
    assert_eq!(m.symbols.len(), 1);
    assert_eq!(m.symbols[0].name, b"write".to_vec());
    assert_eq!(m.symbols[0].params, vec![CParam::ConstCharPtr]);
}

#[test]
fn translation_is_deterministic() {
    let header = hdr();
    let target = target();
    let sysroot = sysroot();
    let m1 = translate(Some(&header), &target, Some(&sysroot)).unwrap();
    let m2 = translate(Some(&header), &target, Some(&sysroot)).unwrap();
    assert_eq!(m1.target, m2.target);
    assert_eq!(m1.symbols.len(), m2.symbols.len());
    assert_eq!(render_module(&m1), render_module(&m2));
}

#[test]
fn sysroot_unset_fails_with_header_present() {
    let header = hdr();
    let target = target();
    let r = translate(Some(&header), &target, None);
    assert_eq!(r.unwrap_err(), BuildError::SysrootUnset);
}

#[test]
fn sysroot_unset_fails_on_every_header() {
    let target = target();
    for header in [
        b"void write(const char*);".to_vec(),
        b"".to_vec(),
        b"not a header at all".to_vec(),
    ] {
        assert!(translate(Some(&header), &target, None).is_err());
    }
    assert!(translate(None, &target, None).is_err());
}

#[test]
fn missing_header_fails() {
    let target = target();
    let sysroot = sysroot();
    let r = translate(None, &target, Some(&sysroot));
    assert_eq!(r.unwrap_err(), BuildError::HeaderNotFound);
}

#[test]
fn malformed_header_fails() {
    let target = target();
    let sysroot = sysroot();
    for header in [
        b"int write(const char*);".to_vec(),
        b"void write(const char*)".to_vec(),
        b"voidwrite(const char*);".to_vec(),
        b"void write(const char);".to_vec(),
        b"void write(const char*,);".to_vec(),
        b"void 9write(const char*);".to_vec(),
    ] {
        let r = translate(Some(&header), &target, Some(&sysroot));
        assert_eq!(r.unwrap_err(), BuildError::ParseFailed);
    }
}

#[test]
fn renders_exact_binding_text() {
    let header = hdr();
    let target = target();
    let sysroot = sysroot();
    let m = translate(Some(&header), &target, Some(&sysroot)).unwrap();
    assert_eq!(render_module(&m), b"fn write(_: CStrPtr);\n".to_vec());
}

#[test]
fn renders_multiple_declarations() {
    let header =
        b"void write(const char *msg);\nvoid flush(void);\nvoid copy(const char*, const char *dst);\n"
            .to_vec();
    let target = target();
    let sysroot = sysroot();
    let m = translate(Some(&header), &target, Some(&sysroot)).unwrap();
    assert_eq!(m.symbols.len(), 3);
    assert_eq!(m.symbols[0].name, b"write".to_vec());
    assert_eq!(m.symbols[0].params.len(), 1);
    assert_eq!(m.symbols[1].name, b"flush".to_vec());
    assert_eq!(m.symbols[1].params.len(), 0);
    assert_eq!(m.symbols[2].name, b"copy".to_vec());
    assert_eq!(m.symbols[2].params.len(), 2);
    assert_eq!(
        render_module(&m),
        b"fn write(_: CStrPtr);\nfn flush();\nfn copy(_: CStrPtr, _: CStrPtr);\n".to_vec()
    );
}

#[test]
fn parses_empty_header_as_empty_declaration_set() {
    let ds = parse_header(&b"".to_vec()).unwrap();
    assert_eq!(ds.len(), 0);
    let ds = parse_header(&b" \t\r\n".to_vec()).unwrap();
    assert_eq!(ds.len(), 0);
}

#[test]
fn parses_declarations_with_whitespace_variants() {
    let ds = parse_header(&b"  void\twrite ( const char * message ) ;  ".to_vec()).unwrap();
    assert_eq!(ds.len(), 1);
    assert_eq!(ds[0].name, b"write".to_vec());
    assert_eq!(ds[0].params, vec![CParam::ConstCharPtr]);
}

#[test]
fn rejects_trailing_garbage() {
    assert!(parse_header(&b"void write(const char*); garbage".to_vec()).is_none());
}

#[test]
fn declared_symbols_are_found_by_name() {
    let header = hdr();
    let target = target();
    let sysroot = sysroot();
    let m = translate(Some(&header), &target, Some(&sysroot)).unwrap();
    assert!(symbol_is_declared(&m, &b"write".to_vec()));
    assert!(!symbol_is_declared(&m, &b"read".to_vec()));
    assert!(!symbol_is_declared(&m, &b"writ".to_vec()));
}

#[test]
fn regeneration_tracks_declared_inputs() {
    let header = hdr();
    let target = target();
    assert!(!needs_regeneration(&header, &target, &header, &target));
    let other_header = b"void write(const char *text);".to_vec();
    assert!(needs_regeneration(&header, &target, &other_header, &target));
    let other_target = b"riscv64gc-unknown-none-elf".to_vec();
    assert!(needs_regeneration(&header, &target, &header, &other_target));
}
