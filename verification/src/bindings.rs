//! The generated binding module: the build-time output of the binding
//! translator. Translation is a pure function of the header bytes, the
//! target platform identifier and the presence of the system-root value, so
//! re-running it on unchanged inputs gives the same module, and rendering
//! that module gives byte-identical text.

use vstd::prelude::*;

use crate::header::{
    parse_header, parse_header_spec, copy_range, GSymbolDecl, SymbolDecl, LEFT_PAREN,
};

verus! {

/// A build-time failure of the binding translator. All are fatal: the build
/// aborts, and no partial or degraded binding set is produced.
#[derive(Clone, Copy, PartialEq, Eq, Structural, Debug)]
pub enum BuildError {
    /// The header file could not be located.
    HeaderNotFound,
    /// The system-root environment value is unset.
    SysrootUnset,
    /// The header bytes do not belong to the declaration grammar.
    ParseFailed,
}

/// The generated binding module: one locally callable declaration per symbol
/// the header exports, together with the target platform identifier the
/// module was generated for. The module must be regenerated whenever the
/// header or the target changes; it is owned by the library unit, and the
/// consuming unit only includes it.
#[derive(Debug)]
pub struct BindingModule {
    pub target: Vec<u8>,
    pub symbols: Vec<SymbolDecl>,
}

/// The mathematical value of a `BindingModule`.
pub ghost struct GBindingModule {
    pub target: Seq<u8>,
    pub symbols: Seq<GSymbolDecl>,
}

/// The mathematical values of a sequence of symbol declarations.
pub open spec fn symbols_view(ds: Seq<SymbolDecl>) -> Seq<GSymbolDecl> {
    Seq::new(ds.len(), |k: int| ds[k]@)
}

impl View for BindingModule {
    type V = GBindingModule;

    open spec fn view(&self) -> GBindingModule {
        GBindingModule { target: self.target@, symbols: symbols_view(self.symbols@) }
    }
}

/// The header bytes as the translator sees them: present or not located.
pub open spec fn header_view(h: Option<&Vec<u8>>) -> Option<Seq<u8>> {
    match h {
        None => None,
        Some(v) => Some(v@),
    }
}

/// What the binding translator produces, as a function of its three declared
/// inputs and of nothing else: the header bytes (or their absence), the
/// target platform identifier, and whether the system-root value is present.
/// A missing header, a missing system root, and a header outside the grammar
/// are each fatal, in that order of detection; otherwise the module maps
/// each declared symbol, in order, to a callable declaration of the same
/// name and shape.
pub open spec fn translate_spec(
    header: Option<Seq<u8>>,
    target: Seq<u8>,
    sysroot_present: bool,
) -> Result<GBindingModule, BuildError> {
    match header {
        None => Err(BuildError::HeaderNotFound),
        Some(h) => {
            if !sysroot_present {
                Err(BuildError::SysrootUnset)
            } else {
                match parse_header_spec(h) {
                    None => Err(BuildError::ParseFailed),
                    Some(g) => Ok(GBindingModule { target, symbols: g }),
                }
            }
        },
    }
}

/// Run the binding translator. `header` holds the header bytes, or nothing
/// if the header could not be located; `sysroot` holds the system-root value
/// from the build configuration, or nothing if it is unset. The result is
/// exactly `translate_spec` of the inputs: deterministic, fatal on a missing
/// header, a missing system root or a header outside the grammar, and
/// otherwise a module with one declaration per exported symbol, in order,
/// with name and parameter shape preserved.
pub fn translate(header: Option<&Vec<u8>>, target: &Vec<u8>, sysroot: Option<&Vec<u8>>) -> (r:
    Result<BindingModule, BuildError>)
    ensures
        ({
            let spec_r = translate_spec(header_view(header), target@, sysroot is Some);
            match r {
                Ok(m) => spec_r == Ok::<GBindingModule, BuildError>(m@),
                Err(e) => spec_r == Err::<GBindingModule, BuildError>(e),
            }
        }),
        header is None ==> r == Err::<BindingModule, BuildError>(BuildError::HeaderNotFound),
        header is Some && sysroot is None ==> r == Err::<BindingModule, BuildError>(
            BuildError::SysrootUnset,
        ),
        r is Ok <==> (header is Some && sysroot is Some && parse_header_spec(
            header_view(header)->Some_0,
        ) is Some),
{
    let h = match header {
        None => {
            return Err(BuildError::HeaderNotFound);
        },
        Some(h) => h,
    };
    match sysroot {
        None => {
            return Err(BuildError::SysrootUnset);
        },
        Some(_) => {},
    }
    match parse_header(h) {
        None => Err(BuildError::ParseFailed),
        Some(ds) => {
            let target_copy = copy_range(target, 0, target.len());
            let m = BindingModule { target: target_copy, symbols: ds };
            proof {
                assert(m@.target =~= target@);
                assert(m@.symbols =~= parse_header_spec(h@)->Some_0);
            }
            Ok(m)
        },
    }
}

/// Whether the binding module has to be regenerated: exactly when the header
/// bytes or the target platform identifier differ from those the module was
/// generated from. On unchanged inputs the cached module may be kept.
pub fn needs_regeneration(
    prev_header: &Vec<u8>,
    prev_target: &Vec<u8>,
    header: &Vec<u8>,
    target: &Vec<u8>,
) -> (r: bool)
    ensures
        r == !(prev_header@ == header@ && prev_target@ == target@),
{
    let same = crate::header::bytes_eq(prev_header, header) && crate::header::bytes_eq(
        prev_target,
        target,
    );
    !same
}

/// The text `fn ` opening a rendered declaration.
pub open spec fn fn_prefix() -> Seq<u8> {
    seq![102u8, 110u8, 32u8]
}

/// The text `_: CStrPtr` of one rendered parameter: an unnamed argument of
/// the pointer type the consuming unit defines.
pub open spec fn param_text() -> Seq<u8> {
    seq![95u8, 58u8, 32u8, 67u8, 83u8, 116u8, 114u8, 80u8, 116u8, 114u8]
}

/// The text `, ` between two rendered parameters.
pub open spec fn param_sep() -> Seq<u8> {
    seq![44u8, 32u8]
}

/// The text `);` and the line feed closing a rendered declaration.
pub open spec fn line_close() -> Seq<u8> {
    seq![41u8, 59u8, 10u8]
}

/// The rendered parameter list for `n` parameters: `n` copies of the
/// parameter text, separated by commas.
pub open spec fn render_params_spec(n: nat) -> Seq<u8>
    decreases n,
{
    if n == 0 {
        Seq::empty()
    } else if n == 1 {
        param_text()
    } else {
        render_params_spec((n - 1) as nat) + param_sep() + param_text()
    }
}

/// The rendered declaration of one symbol: `fn name(params);` and a line
/// feed.
pub open spec fn render_symbol_spec(d: GSymbolDecl) -> Seq<u8> {
    fn_prefix() + d.name + seq![LEFT_PAREN] + render_params_spec(d.params.len()) + line_close()
}

/// The rendered module text: the rendered declarations in order.
pub open spec fn render_module_spec(symbols: Seq<GSymbolDecl>) -> Seq<u8>
    decreases symbols.len(),
{
    if symbols.len() == 0 {
        Seq::empty()
    } else {
        render_module_spec(symbols.drop_last()) + render_symbol_spec(symbols.last())
    }
}

fn append_bytes(out: &mut Vec<u8>, src: &Vec<u8>)
    ensures
        final(out)@ == old(out)@ + src@,
{
    let mut j: usize = 0;
    while j < src.len()
        invariant
            j <= src@.len(),
            out@ == old(out)@ + src@.subrange(0, j as int),
        decreases src@.len() - j,
    {
        out.push(src[j]);
        proof {
            assert(out@ =~= old(out)@ + src@.subrange(0, j + 1));
        }
        j += 1;
    }
    proof {
        assert(src@.subrange(0, src@.len() as int) =~= src@);
    }
}

fn append_param_text(out: &mut Vec<u8>)
    ensures
        final(out)@ == old(out)@ + param_text(),
{
    out.push(95u8);
    out.push(58u8);
    out.push(32u8);
    out.push(67u8);
    out.push(83u8);
    out.push(116u8);
    out.push(114u8);
    out.push(80u8);
    out.push(116u8);
    out.push(114u8);
    proof {
        assert(out@ =~= old(out)@ + param_text());
    }
}

/// Render one symbol's declaration.
fn render_symbol(d: &SymbolDecl) -> (r: Vec<u8>)
    ensures
        r@ == render_symbol_spec(d@),
{
    let mut out: Vec<u8> = Vec::new();
    out.push(102u8);
    out.push(110u8);
    out.push(32u8);
    proof {
        assert(out@ =~= fn_prefix());
    }
    append_bytes(&mut out, &d.name);
    out.push(LEFT_PAREN);
    proof {
        assert(out@ =~= fn_prefix() + d.name@ + seq![LEFT_PAREN]);
    }
    let ghost head = out@;
    let mut j: usize = 0;
    while j < d.params.len()
        invariant
            j <= d.params@.len(),
            out@ == head + render_params_spec(j as nat),
        decreases d.params@.len() - j,
    {
        if j > 0 {
            out.push(44u8);
            out.push(32u8);
            proof {
                assert(out@ =~= head + (render_params_spec(j as nat) + param_sep()));
            }
        }
        append_param_text(&mut out);
        proof {
            if j > 0 {
                assert(out@ =~= head + (render_params_spec(j as nat) + param_sep()
                    + param_text()));
                assert(render_params_spec((j + 1) as nat) == render_params_spec(j as nat)
                    + param_sep() + param_text());
                assert(out@ =~= head + render_params_spec((j + 1) as nat));
            } else {
                assert(render_params_spec(0nat) == Seq::<u8>::empty());
                assert(head + render_params_spec(0nat) =~= head);
                assert(out@ =~= head + render_params_spec(1nat));
            }
        }
        j += 1;
    }
    out.push(41u8);
    out.push(59u8);
    out.push(10u8);
    proof {
        assert(out@ =~= head + render_params_spec(d.params@.len()) + line_close());
        assert(out@ =~= render_symbol_spec(d@));
    }
    out
}

/// Render the whole binding module as text, one declaration per line. The
/// text is a pure function of the module, so rendering the module produced
/// by two runs of the translator on unchanged inputs gives byte-identical
/// text.
pub fn render_module(m: &BindingModule) -> (r: Vec<u8>)
    ensures
        r@ == render_module_spec(m@.symbols),
{
    let mut out: Vec<u8> = Vec::new();
    let mut j: usize = 0;
    proof {
        assert(render_module_spec(m@.symbols.take(0)) =~= Seq::<u8>::empty());
    }
    while j < m.symbols.len()
        invariant
            j <= m.symbols@.len(),
            m@.symbols.len() == m.symbols@.len(),
            forall|k: int| 0 <= k < m.symbols@.len() ==> m@.symbols[k] == m.symbols@[k]@,
            out@ == render_module_spec(m@.symbols.take(j as int)),
        decreases m.symbols@.len() - j,
    {
        let line = render_symbol(&m.symbols[j]);
        append_bytes(&mut out, &line);
        proof {
            let syms = m@.symbols;
            assert(syms.take(j + 1).drop_last() =~= syms.take(j as int));
            assert(syms.take(j + 1).last() == syms[j as int]);
        }
        j += 1;
    }
    proof {
        assert(m@.symbols.take(m.symbols@.len() as int) =~= m@.symbols);
    }
    out
}

/// Whether the module declares a symbol of the given name. The runtime
/// shell never declares the console symbols itself: it may call only what
/// the generated module declares.
pub open spec fn declares_symbol(m: GBindingModule, name: Seq<u8>) -> bool {
    exists|k: int| 0 <= k < m.symbols.len() && m.symbols[k].name == name
}

/// Look a symbol up in the binding module by name.
pub fn symbol_is_declared(m: &BindingModule, name: &Vec<u8>) -> (r: bool)
    ensures
        r == declares_symbol(m@, name@),
{
    let mut j: usize = 0;
    while j < m.symbols.len()
        invariant
            j <= m.symbols@.len(),
            m@.symbols.len() == m.symbols@.len(),
            forall|k: int| 0 <= k < m.symbols@.len() ==> m@.symbols[k] == m.symbols@[k]@,
            forall|k: int| 0 <= k < j ==> m@.symbols[k].name != name@,
        decreases m.symbols@.len() - j,
    {
        if crate::header::bytes_eq(&m.symbols[j].name, name) {
            proof {
                assert(m@.symbols[j as int].name == name@);
            }
            return true;
        }
        j += 1;
    }
    false
}

/// The binding translator is deterministic: on equal inputs it produces
/// equal results, whether those are modules or failures.
pub proof fn lemma_translator_deterministic(
    h1: Option<Seq<u8>>,
    t1: Seq<u8>,
    s1: bool,
    h2: Option<Seq<u8>>,
    t2: Seq<u8>,
    s2: bool,
)
    requires
        h1 == h2,
        t1 == t2,
        s1 == s2,
    ensures
        translate_spec(h1, t1, s1) == translate_spec(h2, t2, s2),
{
}

/// With the system-root value unset the translator fails on every input:
/// there is no successful-but-degraded output. When the header was located,
/// the failure names the missing system root.
pub proof fn lemma_sysroot_unset_always_fails(header: Option<Seq<u8>>, target: Seq<u8>)
    ensures
        translate_spec(header, target, false) is Err,
        header is Some ==> translate_spec(header, target, false) == Err::<
            GBindingModule,
            BuildError,
        >(BuildError::SysrootUnset),
{
}

/// A successful translation preserves the header declaration set exactly:
/// the module holds one binding per declared symbol, in declaration order,
/// with the same name and the same parameter shape, and carries the target
/// it was generated for.
pub proof fn lemma_translation_preserves_shape(header: Seq<u8>, target: Seq<u8>)
    requires
        parse_header_spec(header) is Some,
    ensures
        translate_spec(Some(header), target, true) is Ok,
        ({
            let m = translate_spec(Some(header), target, true)->Ok_0;
            let ds = parse_header_spec(header)->Some_0;
            &&& m.target == target
            &&& m.symbols.len() == ds.len()
            &&& forall|k: int|
                0 <= k < ds.len() ==> m.symbols[k].name == ds[k].name && m.symbols[k].params
                    == ds[k].params
        }),
{
}

} // verus!
