//! The header declaration set: the grammar of the console driver's C-style
//! header, and a parser that turns header bytes into the declared symbols.
//!
//! The grammar is the subset the console driver's header draws on: a sequence
//! of function declarations `void name(params);` where `params` is empty,
//! the single keyword `void`, or a comma-separated list of `const char *`
//! parameters, each with an optional parameter name. Whitespace (space, tab,
//! carriage return, line feed) may stand between any two tokens.
//!
//! Every parsing function is specified against a spec-level parser over the
//! byte sequence, so the whole translation is a pure function of the header
//! bytes: parsing the same bytes twice gives the same declarations.

use vstd::prelude::*;

verus! {

/// A parameter type the grammar admits: a pointer to a constant,
/// null-terminated byte sequence.
#[derive(Clone, Copy, PartialEq, Eq, Structural, Debug)]
pub enum CParam {
    ConstCharPtr,
}

/// One declared symbol: its exported name and its parameter list. Every
/// declaration in the grammar returns nothing, so no return type is carried.
#[derive(Debug)]
pub struct SymbolDecl {
    pub name: Vec<u8>,
    pub params: Vec<CParam>,
}

/// The mathematical value of a `SymbolDecl`.
pub ghost struct GSymbolDecl {
    pub name: Seq<u8>,
    pub params: Seq<CParam>,
}

impl View for SymbolDecl {
    type V = GSymbolDecl;

    open spec fn view(&self) -> GSymbolDecl {
        GSymbolDecl { name: self.name@, params: self.params@ }
    }
}

pub const LEFT_PAREN: u8 = 40;
pub const RIGHT_PAREN: u8 = 41;
pub const STAR: u8 = 42;
pub const COMMA: u8 = 44;
pub const SEMICOLON: u8 = 59;

/// Whitespace: space, tab, line feed, carriage return.
pub open spec fn is_space(b: u8) -> bool {
    b == 32 || b == 9 || b == 10 || b == 13
}

/// A letter or underscore: what an identifier may start with.
pub open spec fn is_ident_start(b: u8) -> bool {
    (65 <= b && b <= 90) || (97 <= b && b <= 122) || b == 95
}

/// A byte an identifier may continue with: letter, underscore or digit.
pub open spec fn is_ident_byte(b: u8) -> bool {
    is_ident_start(b) || (48 <= b && b <= 57)
}

/// The keyword `void`.
pub open spec fn kw_void() -> Seq<u8> {
    seq![118u8, 111u8, 105u8, 100u8]
}

/// The keyword `const`.
pub open spec fn kw_const() -> Seq<u8> {
    seq![99u8, 111u8, 110u8, 115u8, 116u8]
}

/// The keyword `char`.
pub open spec fn kw_char() -> Seq<u8> {
    seq![99u8, 104u8, 97u8, 114u8]
}

/// The first position at or after `i` that does not hold whitespace.
pub open spec fn skip_space_spec(s: Seq<u8>, i: int) -> int
    decreases s.len() - i,
{
    if 0 <= i < s.len() && is_space(s[i]) {
        skip_space_spec(s, i + 1)
    } else {
        i
    }
}

/// The end of the identifier starting at `i`: the first position at or after
/// `i` that does not hold an identifier byte.
pub open spec fn ident_end_spec(s: Seq<u8>, i: int) -> int
    decreases s.len() - i,
{
    if 0 <= i < s.len() && is_ident_byte(s[i]) {
        ident_end_spec(s, i + 1)
    } else {
        i
    }
}

/// The keyword `kw` stands at position `i` of `s`, not followed by a further
/// identifier byte (so `void` matches in `void f` but not in `voidf`).
pub open spec fn keyword_at(s: Seq<u8>, i: int, kw: Seq<u8>) -> bool {
    &&& 0 <= i
    &&& i + kw.len() <= s.len()
    &&& s.subrange(i, i + kw.len() as int) == kw
    &&& (i + kw.len() == s.len() || !is_ident_byte(s[i + kw.len()]))
}

fn is_space_x(b: u8) -> (r: bool)
    ensures
        r == is_space(b),
{
    b == 32 || b == 9 || b == 10 || b == 13
}

fn is_ident_start_x(b: u8) -> (r: bool)
    ensures
        r == is_ident_start(b),
{
    (65 <= b && b <= 90) || (97 <= b && b <= 122) || b == 95
}

fn is_ident_byte_x(b: u8) -> (r: bool)
    ensures
        r == is_ident_byte(b),
{
    is_ident_start_x(b) || (48 <= b && b <= 57)
}

fn skip_space(s: &Vec<u8>, i: usize) -> (r: usize)
    requires
        i <= s@.len(),
    ensures
        r == skip_space_spec(s@, i as int),
        i <= r <= s@.len(),
{
    let mut j = i;
    while j < s.len() && is_space_x(s[j])
        invariant
            i <= j <= s@.len(),
            skip_space_spec(s@, i as int) == skip_space_spec(s@, j as int),
        decreases s@.len() - j,
    {
        j += 1;
    }
    j
}

fn ident_end(s: &Vec<u8>, i: usize) -> (r: usize)
    requires
        i <= s@.len(),
    ensures
        r == ident_end_spec(s@, i as int),
        i <= r <= s@.len(),
{
    let mut j = i;
    while j < s.len() && is_ident_byte_x(s[j])
        invariant
            i <= j <= s@.len(),
            ident_end_spec(s@, i as int) == ident_end_spec(s@, j as int),
        decreases s@.len() - j,
    {
        j += 1;
    }
    j
}

/// Whether the bytes of `kw` stand at position `i` of `s`, as a keyword.
fn keyword_at_x(s: &Vec<u8>, i: usize, kw: &Vec<u8>) -> (r: bool)
    requires
        i <= s@.len(),
    ensures
        r == keyword_at(s@, i as int, kw@),
{
    let n: usize = s.len();
    if n - i < kw.len() {
        return false;
    }
    let mut j: usize = 0;
    while j < kw.len()
        invariant
            n == s@.len(),
            i + kw@.len() <= n,
            j <= kw@.len(),
            forall|k: int| 0 <= k < j ==> s@[i + k] == kw@[k],
        decreases kw@.len() - j,
    {
        if s[i + j] != kw[j] {
            proof {
                assert(s@.subrange(i as int, i + kw@.len())[j as int] == s@[i + j]);
            }
            return false;
        }
        j += 1;
    }
    proof {
        assert(s@.subrange(i as int, i + kw@.len()) =~= kw@);
    }
    if i + kw.len() == s.len() {
        true
    } else {
        !is_ident_byte_x(s[i + kw.len()])
    }
}

fn kw_void_x() -> (r: Vec<u8>)
    ensures
        r@ == kw_void(),
{
    let mut v: Vec<u8> = Vec::new();
    v.push(118u8);
    v.push(111u8);
    v.push(105u8);
    v.push(100u8);
    proof {
        assert(v@ =~= kw_void());
    }
    v
}

fn kw_const_x() -> (r: Vec<u8>)
    ensures
        r@ == kw_const(),
{
    let mut v: Vec<u8> = Vec::new();
    v.push(99u8);
    v.push(111u8);
    v.push(110u8);
    v.push(115u8);
    v.push(116u8);
    proof {
        assert(v@ =~= kw_const());
    }
    v
}

fn kw_char_x() -> (r: Vec<u8>)
    ensures
        r@ == kw_char(),
{
    let mut v: Vec<u8> = Vec::new();
    v.push(99u8);
    v.push(104u8);
    v.push(97u8);
    v.push(114u8);
    proof {
        assert(v@ =~= kw_char());
    }
    v
}

/// The bytes of `s` from `lo` (inclusive) to `hi` (exclusive), as an owned
/// vector.
pub fn copy_range(s: &Vec<u8>, lo: usize, hi: usize) -> (r: Vec<u8>)
    requires
        lo <= hi <= s@.len(),
    ensures
        r@ == s@.subrange(lo as int, hi as int),
{
    let mut v: Vec<u8> = Vec::new();
    let mut j = lo;
    while j < hi
        invariant
            lo <= j <= hi <= s@.len(),
            v@ == s@.subrange(lo as int, j as int),
        decreases hi - j,
    {
        v.push(s[j]);
        proof {
            assert(v@ =~= s@.subrange(lo as int, j + 1));
        }
        j += 1;
    }
    v
}

/// Whether two byte vectors hold the same bytes.
pub fn bytes_eq(a: &Vec<u8>, b: &Vec<u8>) -> (r: bool)
    ensures
        r == (a@ == b@),
{
    if a.len() != b.len() {
        return false;
    }
    let mut j: usize = 0;
    while j < a.len()
        invariant
            a@.len() == b@.len(),
            j <= a@.len(),
            forall|k: int| 0 <= k < j ==> a@[k] == b@[k],
        decreases a@.len() - j,
    {
        if a[j] != b[j] {
            return false;
        }
        j += 1;
    }
    proof {
        assert(a@ =~= b@);
    }
    true
}

/// One parameter at position `i`: `const char *`, optionally followed by a
/// parameter name. Returns the parameter and the position just after it.
pub open spec fn parse_param_spec(s: Seq<u8>, i: int) -> Option<(CParam, int)> {
    if !keyword_at(s, i, kw_const()) {
        None
    } else {
        let a = skip_space_spec(s, i + 5);
        if !keyword_at(s, a, kw_char()) {
            None
        } else {
            let b = skip_space_spec(s, a + 4);
            if !(0 <= b < s.len() && s[b] == STAR) {
                None
            } else {
                let c = skip_space_spec(s, b + 1);
                if 0 <= c < s.len() && is_ident_start(s[c]) {
                    Some((CParam::ConstCharPtr, ident_end_spec(s, c)))
                } else {
                    Some((CParam::ConstCharPtr, c))
                }
            }
        }
    }
}

/// A non-empty, comma-separated parameter list starting at `i`, up to and
/// including the closing parenthesis. Returns the parameters and the
/// position just after the parenthesis.
pub open spec fn parse_params_spec(s: Seq<u8>, i: int) -> Option<(Seq<CParam>, int)>
    decreases s.len() - i,
{
    match parse_param_spec(s, i) {
        None => None,
        Some((p, j)) => {
            let k = skip_space_spec(s, j);
            if 0 <= k < s.len() && s[k] == COMMA {
                let m = skip_space_spec(s, k + 1);
                if i < m && m <= s.len() {
                    match parse_params_spec(s, m) {
                        None => None,
                        Some((rest, e)) => Some((seq![p] + rest, e)),
                    }
                } else {
                    None
                }
            } else if 0 <= k < s.len() && s[k] == RIGHT_PAREN {
                Some((seq![p], k + 1))
            } else {
                None
            }
        }
    }
}

/// The end of a declaration, from position `i` just after the closing
/// parenthesis: optional whitespace, then the semicolon.
pub open spec fn finish_decl_spec(
    s: Seq<u8>,
    name: Seq<u8>,
    params: Seq<CParam>,
    i: int,
) -> Option<(GSymbolDecl, int)> {
    let f = skip_space_spec(s, i);
    if 0 <= f < s.len() && s[f] == SEMICOLON {
        Some((GSymbolDecl { name, params }, f + 1))
    } else {
        None
    }
}

/// One declaration at position `i`: `void name(params);` where the parameter
/// list is empty, the keyword `void`, or a `const char *` list. Returns the
/// declared symbol and the position just after the semicolon.
pub open spec fn parse_decl_spec(s: Seq<u8>, i: int) -> Option<(GSymbolDecl, int)> {
    if !keyword_at(s, i, kw_void()) {
        None
    } else {
        let a = skip_space_spec(s, i + 4);
        if !(0 <= a < s.len() && is_ident_start(s[a])) {
            None
        } else {
            let b = ident_end_spec(s, a);
            let name = s.subrange(a, b);
            let c = skip_space_spec(s, b);
            if !(0 <= c < s.len() && s[c] == LEFT_PAREN) {
                None
            } else {
                let d = skip_space_spec(s, c + 1);
                if 0 <= d < s.len() && s[d] == RIGHT_PAREN {
                    finish_decl_spec(s, name, Seq::empty(), d + 1)
                } else if keyword_at(s, d, kw_void()) {
                    let e = skip_space_spec(s, d + 4);
                    if 0 <= e < s.len() && s[e] == RIGHT_PAREN {
                        finish_decl_spec(s, name, Seq::empty(), e + 1)
                    } else {
                        None
                    }
                } else {
                    match parse_params_spec(s, d) {
                        None => None,
                        Some((ps, e)) => finish_decl_spec(s, name, ps, e),
                    }
                }
            }
        }
    }
}

/// All declarations from position `i` to the end of the header: whitespace
/// between and around declarations is skipped, and every byte must belong to
/// whitespace or to a declaration.
pub open spec fn parse_decls_spec(s: Seq<u8>, i: int) -> Option<Seq<GSymbolDecl>>
    decreases s.len() - i,
{
    let j = skip_space_spec(s, i);
    if j >= s.len() {
        Some(Seq::empty())
    } else {
        match parse_decl_spec(s, j) {
            None => None,
            Some((d, k)) => {
                if i < k && k <= s.len() {
                    match parse_decls_spec(s, k) {
                        None => None,
                        Some(rest) => Some(seq![d] + rest),
                    }
                } else {
                    None
                }
            }
        }
    }
}

/// The header declaration set denoted by the header bytes: the declared
/// symbols in order, or nothing if the bytes do not belong to the grammar.
pub open spec fn parse_header_spec(s: Seq<u8>) -> Option<Seq<GSymbolDecl>> {
    parse_decls_spec(s, 0)
}

fn parse_param(s: &Vec<u8>, i: usize) -> (r: Option<(CParam, usize)>)
    requires
        i <= s@.len(),
    ensures
        match r {
            None => parse_param_spec(s@, i as int) is None,
            Some((p, j)) => {
                &&& parse_param_spec(s@, i as int) == Some((p, j as int))
                &&& i <= j <= s@.len()
            },
        },
{
    let n: usize = s.len();
    let kconst = kw_const_x();
    if !keyword_at_x(s, i, &kconst) {
        return None;
    }
    proof {
        assert(i + 5 <= n);
    }
    let a = skip_space(s, i + 5);
    let kchar = kw_char_x();
    if !keyword_at_x(s, a, &kchar) {
        return None;
    }
    proof {
        assert(a + 4 <= n);
    }
    let b = skip_space(s, a + 4);
    if !(b < s.len() && s[b] == STAR) {
        return None;
    }
    let c = skip_space(s, b + 1);
    if c < s.len() && is_ident_start_x(s[c]) {
        let e = ident_end(s, c);
        Some((CParam::ConstCharPtr, e))
    } else {
        Some((CParam::ConstCharPtr, c))
    }
}

fn parse_params(s: &Vec<u8>, i: usize) -> (r: Option<(Vec<CParam>, usize)>)
    requires
        i <= s@.len(),
    ensures
        match r {
            None => parse_params_spec(s@, i as int) is None,
            Some((ps, j)) => {
                &&& parse_params_spec(s@, i as int) == Some((ps@, j as int))
                &&& i <= j <= s@.len()
            },
        },
    decreases s@.len() - i,
{
    let (p, j) = match parse_param(s, i) {
        None => {
            return None;
        },
        Some(x) => x,
    };
    let k = skip_space(s, j);
    if k < s.len() && s[k] == COMMA {
        let m = skip_space(s, k + 1);
        if i < m {
            match parse_params(s, m) {
                None => None,
                Some((rest, e)) => {
                    let mut ps: Vec<CParam> = Vec::new();
                    ps.push(p);
                    let mut rest = rest;
                    let ghost rest_view = rest@;
                    ps.append(&mut rest);
                    proof {
                        assert(ps@ =~= seq![p] + rest_view);
                    }
                    Some((ps, e))
                },
            }
        } else {
            None
        }
    } else if k < s.len() && s[k] == RIGHT_PAREN {
        let mut ps: Vec<CParam> = Vec::new();
        ps.push(p);
        proof {
            assert(ps@ =~= seq![p]);
        }
        Some((ps, k + 1))
    } else {
        None
    }
}

fn finish_decl(s: &Vec<u8>, name: Vec<u8>, params: Vec<CParam>, i: usize) -> (r: Option<
    (SymbolDecl, usize),
>)
    requires
        i <= s@.len(),
    ensures
        match r {
            None => finish_decl_spec(s@, name@, params@, i as int) is None,
            Some((d, j)) => {
                &&& finish_decl_spec(s@, name@, params@, i as int) == Some((d@, j as int))
                &&& i <= j <= s@.len()
            },
        },
{
    let f = skip_space(s, i);
    if f < s.len() && s[f] == SEMICOLON {
        Some((SymbolDecl { name, params }, f + 1))
    } else {
        None
    }
}

fn parse_decl(s: &Vec<u8>, i: usize) -> (r: Option<(SymbolDecl, usize)>)
    requires
        i <= s@.len(),
    ensures
        match r {
            None => parse_decl_spec(s@, i as int) is None,
            Some((d, j)) => {
                &&& parse_decl_spec(s@, i as int) == Some((d@, j as int))
                &&& i <= j <= s@.len()
            },
        },
{
    let n: usize = s.len();
    let kvoid = kw_void_x();
    if !keyword_at_x(s, i, &kvoid) {
        return None;
    }
    proof {
        assert(i + 4 <= n);
    }
    let a = skip_space(s, i + 4);
    if !(a < s.len() && is_ident_start_x(s[a])) {
        return None;
    }
    let b = ident_end(s, a);
    let name = copy_range(s, a, b);
    let c = skip_space(s, b);
    if !(c < s.len() && s[c] == LEFT_PAREN) {
        return None;
    }
    let d = skip_space(s, c + 1);
    if d < s.len() && s[d] == RIGHT_PAREN {
        finish_decl(s, name, Vec::new(), d + 1)
    } else if keyword_at_x(s, d, &kvoid) {
        let e = skip_space(s, d + 4);
        if e < s.len() && s[e] == RIGHT_PAREN {
            finish_decl(s, name, Vec::new(), e + 1)
        } else {
            None
        }
    } else {
        match parse_params(s, d) {
            None => None,
            Some((ps, e)) => finish_decl(s, name, ps, e),
        }
    }
}

fn parse_decls(s: &Vec<u8>, i: usize) -> (r: Option<Vec<SymbolDecl>>)
    requires
        i <= s@.len(),
    ensures
        match r {
            None => parse_decls_spec(s@, i as int) is None,
            Some(ds) => {
                &&& parse_decls_spec(s@, i as int) matches Some(g)
                &&& g.len() == ds@.len()
                &&& forall|k: int| 0 <= k < g.len() ==> ds@[k]@ == g[k]
            },
        },
    decreases s@.len() - i,
{
    let j = skip_space(s, i);
    if j >= s.len() {
        Some(Vec::new())
    } else {
        match parse_decl(s, j) {
            None => None,
            Some((d, k)) => {
                if i < k {
                    match parse_decls(s, k) {
                        None => None,
                        Some(rest) => {
                            let ghost dg = d@;
                            let ghost rest_view = rest@;
                            let mut ds: Vec<SymbolDecl> = Vec::new();
                            ds.push(d);
                            let mut rest = rest;
                            ds.append(&mut rest);
                            proof {
                                assert(ds@ =~= seq![ds@[0]] + rest_view);
                                assert(ds@[0]@ == dg);
                            }
                            Some(ds)
                        },
                    }
                } else {
                    None
                }
            },
        }
    }
}

/// Parse the header declaration set out of the header bytes. Succeeds if and
/// only if the bytes belong to the grammar, and then returns the declared
/// symbols in order, one per declaration.
pub fn parse_header(s: &Vec<u8>) -> (r: Option<Vec<SymbolDecl>>)
    ensures
        match r {
            None => parse_header_spec(s@) is None,
            Some(ds) => {
                &&& parse_header_spec(s@) matches Some(g)
                &&& g.len() == ds@.len()
                &&& forall|k: int| 0 <= k < g.len() ==> ds@[k]@ == g[k]
            },
        },
{
    parse_decls(s, 0)
}

} // verus!
