//! The module container: a guest module, its companion script and bundle,
//! carried as one blob. The layout is a little-endian length, a JSON
//! header, the three segments the header measures, a 32-byte digest of
//! everything before it, and the signature as the remaining bytes.

use vstd::prelude::*;

use vstd::utf8::encode_utf8;

use crate::json::parse_json_bool;
use crate::json::parse_json_u64;
use crate::json::parse_string;
use crate::json::parse_u8_array;
use crate::json::skip_value;
use crate::json::skip_ws;
use crate::json::json_string;
use crate::json::json_u8_array;
use crate::json::JsonError;
use crate::util::dec_str;
use crate::util::str_eq;

verus! {

/// Which runtime a module targets.
#[derive(Debug, Clone, Copy, PartialEq, Eq, Structural)]
pub enum YakModuleType {
    WASI,
    Emscripten,
    Pyodide,
}

/// What role a module plays.
#[derive(Debug, Clone, Copy, PartialEq, Eq, Structural)]
pub enum YakModuleKind {
    Function,
    Execution,
    Procedure,
}

/// How the bundle segment is packed.
#[derive(Debug, Clone, Copy, PartialEq, Eq, Structural)]
pub enum BundleFileFormat {
    TarGz,
    Binary,
}

/// An endpoint a module may reach out to.
#[derive(Debug, Clone)]
pub struct ExternalCommunication {
    pub endpoint: String,
    pub use_tls: bool,
    pub ca_cert_pem: Option<Vec<u8>>,
}

/// The header segment: what the container holds and how long each segment
/// is.
#[derive(Debug, Clone)]
pub struct YakModuleHeader {
    pub module_type: YakModuleType,
    pub module_kind: YakModuleKind,
    pub module_file_name: String,
    pub module_js_file_name: String,
    pub module_length: usize,
    pub module_js_length: usize,
    pub bundle_file_format: BundleFileFormat,
    pub bundle_file_length: usize,
    pub ext_com: Option<ExternalCommunication>,
}

/// The container's signature segment.
#[derive(Debug, Clone)]
pub struct YakModuleSignature {
    pub signature: Vec<u8>,
}

/// One module container.
#[derive(Debug)]
pub struct YakModule {
    pub header: YakModuleHeader,
    pub module: Vec<u8>,
    pub module_js: Vec<u8>,
    pub bundle_file: Vec<u8>,
    pub digest: Vec<u8>,
    pub signature: YakModuleSignature,
}

impl Default for YakModuleHeader {
    /// A WASI function module with empty names and segments.
    fn default() -> (r: Self)
        ensures
            r.module_type is WASI,
            r.module_kind is Function,
            r.module_file_name@ == Seq::<char>::empty(),
            r.module_js_file_name@ == Seq::<char>::empty(),
            r.module_length == 0,
            r.module_js_length == 0,
            r.bundle_file_format is TarGz,
            r.bundle_file_length == 0,
            r.ext_com is None,
    {
        proof {
            reveal_strlit("");
        }
        YakModuleHeader {
            module_type: YakModuleType::WASI,
            module_kind: YakModuleKind::Function,
            module_file_name: "".to_owned(),
            module_js_file_name: "".to_owned(),
            module_length: 0,
            module_js_length: 0,
            bundle_file_format: BundleFileFormat::TarGz,
            bundle_file_length: 0,
            ext_com: None,
        }
    }
}

/// The JSON tag of a module type.
pub open spec fn type_json(t: YakModuleType) -> Seq<char> {
    match t {
        YakModuleType::WASI => "\"WASI\""@,
        YakModuleType::Emscripten => "\"Emscripten\""@,
        YakModuleType::Pyodide => "\"Pyodide\""@,
    }
}

/// The JSON tag of a module kind.
pub open spec fn kind_json(k: YakModuleKind) -> Seq<char> {
    match k {
        YakModuleKind::Function => "\"Function\""@,
        YakModuleKind::Execution => "\"Execution\""@,
        YakModuleKind::Procedure => "\"Procedure\""@,
    }
}

/// The JSON tag of a bundle format.
pub open spec fn format_json(f: BundleFileFormat) -> Seq<char> {
    match f {
        BundleFileFormat::TarGz => "\"TarGz\""@,
        BundleFileFormat::Binary => "\"Binary\""@,
    }
}

/// The JSON of the optional endpoint record.
pub open spec fn ext_com_json(o: Option<ExternalCommunication>) -> Seq<char> {
    match o {
        None => "null"@,
        Some(e) => "{\"endpoint\":"@ + json_string(e.endpoint@) + ",\"use_tls\":"@ + (if e.use_tls {
            "true"@
        } else {
            "false"@
        }) + ",\"ca_cert_pem\":"@ + (match e.ca_cert_pem {
            None => "null"@,
            Some(pem) => json_u8_array(pem@),
        }) + "}"@,
    }
}

/// The leading members of a header's JSON text, through the two segment
/// lengths.
pub open spec fn header_json_front(
    t: YakModuleType,
    k: YakModuleKind,
    fname: Seq<char>,
    jsname: Seq<char>,
    ml: nat,
    jl: nat,
) -> Seq<char> {
    "{\"module_type\":"@ + type_json(t) + ",\"module_kind\":"@ + kind_json(k)
        + ",\"module_file_name\":"@ + json_string(fname) + ",\"module_js_file_name\":"@
        + json_string(jsname) + ",\"module_length\":"@ + dec_str(ml)
        + ",\"module_js_length\":"@ + dec_str(jl)
}

/// The exact JSON text of a header.
pub open spec fn header_json(h: YakModuleHeader) -> Seq<char> {
    header_json_front(
        h.module_type,
        h.module_kind,
        h.module_file_name@,
        h.module_js_file_name@,
        h.module_length as nat,
        h.module_js_length as nat,
    ) + ",\"bundle_file_format\":"@ + format_json(h.bundle_file_format)
        + ",\"bundle_file_length\":"@ + dec_str(h.bundle_file_length as nat) + ",\"ext_com\":"@
        + ext_com_json(h.ext_com) + "}"@
}

/// The little-endian bytes of a 32-bit length.
pub open spec fn le32(n: u32) -> Seq<u8> {
    seq![
        (n % 256) as u8,
        ((n / 256) % 256) as u8,
        ((n / 65536) % 256) as u8,
        ((n / 16777216) % 256) as u8,
    ]
}

/// Everything the digest covers: the header's length and text, then the
/// three measured segments.
pub open spec fn content_of(m: YakModule) -> Seq<u8> {
    let hb = encode_utf8(header_json(m.header));
    le32(hb.len() as u32) + hb + m.module@ + m.module_js@ + m.bundle_file@
}

/// The digest of a byte string under the container's hash.
pub uninterp spec fn sha256_of(bytes: Seq<u8>) -> Seq<u8>;

/// Relies on sha2's Sha256: a 32-byte digest that depends on the bytes
/// alone.
#[verifier::external_body]
fn sha256(bytes: &Vec<u8>) -> (r: Vec<u8>)
    ensures
        r@ == sha256_of(bytes@),
        r@.len() == 32,
{
    let mut hasher = <sha2::Sha256 as sha2::Digest>::new();
    sha2::Digest::update(&mut hasher, bytes);
    sha2::Digest::finalize(hasher).to_vec()
}

impl YakModuleHeader {
    /// The exact JSON text of this header.
    #[verifier::rlimit(100)]
    pub fn to_json(self: &Self) -> (r: String)
        ensures
            r@ == header_json(*self),
    {
        let mut out = "{\"module_type\":".to_owned();
        match self.module_type {
            YakModuleType::WASI => out.append("\"WASI\""),
            YakModuleType::Emscripten => out.append("\"Emscripten\""),
            YakModuleType::Pyodide => out.append("\"Pyodide\""),
        }
        out.append(",\"module_kind\":");
        match self.module_kind {
            YakModuleKind::Function => out.append("\"Function\""),
            YakModuleKind::Execution => out.append("\"Execution\""),
            YakModuleKind::Procedure => out.append("\"Procedure\""),
        }
        out.append(",\"module_file_name\":");
        crate::json::append_json_string(&mut out, self.module_file_name.as_str());
        out.append(",\"module_js_file_name\":");
        crate::json::append_json_string(&mut out, self.module_js_file_name.as_str());
        out.append(",\"module_length\":");
        crate::util::append_u64_dec(&mut out, self.module_length as u64);
        out.append(",\"module_js_length\":");
        crate::util::append_u64_dec(&mut out, self.module_js_length as u64);
        out.append(",\"bundle_file_format\":");
        match self.bundle_file_format {
            BundleFileFormat::TarGz => out.append("\"TarGz\""),
            BundleFileFormat::Binary => out.append("\"Binary\""),
        }
        out.append(",\"bundle_file_length\":");
        crate::util::append_u64_dec(&mut out, self.bundle_file_length as u64);
        out.append(",\"ext_com\":");
        match &self.ext_com {
            None => out.append("null"),
            Some(e) => {
                out.append("{\"endpoint\":");
                crate::json::append_json_string(&mut out, e.endpoint.as_str());
                out.append(",\"use_tls\":");
                if e.use_tls {
                    out.append("true");
                } else {
                    out.append("false");
                }
                out.append(",\"ca_cert_pem\":");
                match &e.ca_cert_pem {
                    None => out.append("null"),
                    Some(pem) => crate::json::append_json_u8_array(&mut out, pem),
                }
                out.append("}");
            },
        }
        out.append("}");
        proof {
            assert(out@ =~= header_json(*self));
        }
        out
    }

    /// Reads the canonical `ext_com` member: `null` or the endpoint record
    /// exactly as the writer renders it.
    fn ext_com_from_canonical(json: &str, pos: usize) -> (r: Result<
        (Option<ExternalCommunication>, usize),
        JsonError,
    >)
        requires
            pos <= json@.len(),
        ensures
            r matches Ok(p) ==> pos <= p.1 <= json@.len() && json@.subrange(
                pos as int,
                p.1 as int,
            ) == ext_com_json(p.0),
    {
        match crate::json::parse_exact(json, pos, "null") {
            Ok(p) => Ok((None, p)),
            Err(_) => {
                let q1 = crate::json::parse_exact(json, pos, "{\"endpoint\":")?;
                let (endpoint, q2) = parse_string(json, q1)?;
                let q3 = crate::json::parse_exact(json, q2, ",\"use_tls\":")?;
                let (use_tls, q4) = match crate::json::parse_exact(json, q3, "true") {
                    Ok(p) => (true, p),
                    Err(_) => match crate::json::parse_exact(json, q3, "false") {
                        Ok(p) => (false, p),
                        Err(e) => {
                            return Err(e);
                        },
                    },
                };
                let q5 = crate::json::parse_exact(json, q4, ",\"ca_cert_pem\":")?;
                let (ca_cert_pem, q6) = match crate::json::parse_exact(json, q5, "null") {
                    Ok(p) => (None, p),
                    Err(_) => {
                        let (pem, p) = parse_u8_array(json, q5)?;
                        (Some(pem), p)
                    },
                };
                let q7 = crate::json::parse_exact(json, q6, "}")?;
                let e = ExternalCommunication { endpoint, use_tls, ca_cert_pem };
                proof {
                    assert(json@.subrange(pos as int, q7 as int) =~= ext_com_json(Some(e)));
                }
                Ok((Some(e), q7))
            },
        }
    }

    /// Reads the leading canonical members, through the two segment
    /// lengths.
    #[verifier::rlimit(100)]
    fn front_from_canonical(json: &str) -> (r: Result<
        ((YakModuleType, YakModuleKind, String, String, usize, usize), usize),
        JsonError,
    >)
        ensures
            r matches Ok(p) ==> p.1 <= json@.len() && json@.subrange(0, p.1 as int)
                == header_json_front(
                p.0.0,
                p.0.1,
                p.0.2@,
                p.0.3@,
                p.0.4 as nat,
                p.0.5 as nat,
            ),
    {
        let p1 = crate::json::parse_exact(json, 0, "{\"module_type\":")?;
        let (module_type, p2) = match crate::json::parse_exact(json, p1, "\"WASI\"") {
            Ok(p) => (YakModuleType::WASI, p),
            Err(_) => match crate::json::parse_exact(json, p1, "\"Emscripten\"") {
                Ok(p) => (YakModuleType::Emscripten, p),
                Err(_) => match crate::json::parse_exact(json, p1, "\"Pyodide\"") {
                    Ok(p) => (YakModuleType::Pyodide, p),
                    Err(e) => {
                        return Err(e);
                    },
                },
            },
        };
        let p3 = crate::json::parse_exact(json, p2, ",\"module_kind\":")?;
        let (module_kind, p4) = match crate::json::parse_exact(json, p3, "\"Function\"") {
            Ok(p) => (YakModuleKind::Function, p),
            Err(_) => match crate::json::parse_exact(json, p3, "\"Execution\"") {
                Ok(p) => (YakModuleKind::Execution, p),
                Err(_) => match crate::json::parse_exact(json, p3, "\"Procedure\"") {
                    Ok(p) => (YakModuleKind::Procedure, p),
                    Err(e) => {
                        return Err(e);
                    },
                },
            },
        };
        let p5 = crate::json::parse_exact(json, p4, ",\"module_file_name\":")?;
        let (module_file_name, p6) = parse_string(json, p5)?;
        let p7 = crate::json::parse_exact(json, p6, ",\"module_js_file_name\":")?;
        let (module_js_file_name, p8) = parse_string(json, p7)?;
        let p9 = crate::json::parse_exact(json, p8, ",\"module_length\":")?;
        let (ml, p10) = parse_json_u64(json, p9)?;
        let module_length = usize_of_u64(ml)?;
        let p11 = crate::json::parse_exact(json, p10, ",\"module_js_length\":")?;
        let (jl, p12) = parse_json_u64(json, p11)?;
        let module_js_length = usize_of_u64(jl)?;
        proof {
            assert(dec_str(module_length as nat) == dec_str(ml as nat));
            assert(dec_str(module_js_length as nat) == dec_str(jl as nat));
            assert(json@.subrange(0, p12 as int) =~= header_json_front(
                module_type,
                module_kind,
                module_file_name@,
                module_js_file_name@,
                module_length as nat,
                module_js_length as nat,
            ));
        }
        Ok(
            (
                (
                    module_type,
                    module_kind,
                    module_file_name,
                    module_js_file_name,
                    module_length,
                    module_js_length,
                ),
                p12,
            ),
        )
    }

    /// Reads a header in exactly the canonical shape the writer emits:
    /// whatever is accepted is precisely the canonical text of the result.
    #[verifier::rlimit(100)]
    pub fn from_canonical(json: &str) -> (r: Result<YakModuleHeader, JsonError>)
        ensures
            r matches Ok(h) ==> json@ == header_json(h),
    {
        let n: usize = json.unicode_len();
        let (front, p12) = Self::front_from_canonical(json)?;
        let (module_type, module_kind, module_file_name, module_js_file_name, module_length,
        module_js_length) = front;
        let p13 = crate::json::parse_exact(json, p12, ",\"bundle_file_format\":")?;
        let (bundle_file_format, p14) = match crate::json::parse_exact(json, p13, "\"TarGz\"") {
            Ok(p) => (BundleFileFormat::TarGz, p),
            Err(_) => match crate::json::parse_exact(json, p13, "\"Binary\"") {
                Ok(p) => (BundleFileFormat::Binary, p),
                Err(e) => {
                    return Err(e);
                },
            },
        };
        let p15 = crate::json::parse_exact(json, p14, ",\"bundle_file_length\":")?;
        let (bl, p16) = parse_json_u64(json, p15)?;
        let bundle_file_length = usize_of_u64(bl)?;
        let p17 = crate::json::parse_exact(json, p16, ",\"ext_com\":")?;
        let (ext_com, p18) = Self::ext_com_from_canonical(json, p17)?;
        let p19 = crate::json::parse_exact(json, p18, "}")?;
        if p19 != n {
            return Err(JsonError);
        }
        let h = YakModuleHeader {
            module_type,
            module_kind,
            module_file_name,
            module_js_file_name,
            module_length,
            module_js_length,
            bundle_file_format,
            bundle_file_length,
            ext_com,
        };
        proof {
            assert(dec_str(bundle_file_length as nat) == dec_str(bl as nat));
            assert(json@.subrange(0, n as int) =~= json@);
            assert(json@ =~= header_json(h));
        }
        Ok(h)
    }

    /// Reads a header from JSON text; all members but `ext_com` are
    /// required, unknown members are skipped, trailing text is refused.
    pub fn from_json(json: &str) -> (r: Result<YakModuleHeader, JsonError>) {
        let n: usize = json.unicode_len();
        let start = skip_ws(json, 0);
        if start >= n || json.get_char(start) != '{' {
            return Err(JsonError);
        }
        let mut module_type: Option<YakModuleType> = None;
        let mut module_kind: Option<YakModuleKind> = None;
        let mut module_file_name: Option<String> = None;
        let mut module_js_file_name: Option<String> = None;
        let mut module_length: Option<u64> = None;
        let mut module_js_length: Option<u64> = None;
        let mut bundle_file_format: Option<BundleFileFormat> = None;
        let mut bundle_file_length: Option<u64> = None;
        let mut ext_com: Option<ExternalCommunication> = None;
        let mut i: usize = skip_ws(json, start + 1);
        let mut done = false;
        if i < n && json.get_char(i) == '}' {
            let fin = skip_ws(json, i + 1);
            if fin != n {
                return Err(JsonError);
            }
            done = true;
        }
        if !done {
            loop
                invariant
                    start < i <= n,
                    n == json@.len(),
                decreases n - i,
            {
                let (key, p) = parse_string(json, i)?;
                let q = skip_ws(json, p);
                if q >= n || json.get_char(q) != ':' {
                    return Err(JsonError);
                }
                let v = skip_ws(json, q + 1);
                if v <= i {
                    return Err(JsonError);
                }
                let after: usize;
                if str_eq(key.as_str(), "module_type") {
                    let (tag, p2) = parse_string(json, v)?;
                    module_type = Some(parse_type_tag(tag.as_str())?);
                    after = p2;
                } else if str_eq(key.as_str(), "module_kind") {
                    let (tag, p2) = parse_string(json, v)?;
                    module_kind = Some(parse_kind_tag(tag.as_str())?);
                    after = p2;
                } else if str_eq(key.as_str(), "module_file_name") {
                    let (val, p2) = parse_string(json, v)?;
                    module_file_name = Some(val);
                    after = p2;
                } else if str_eq(key.as_str(), "module_js_file_name") {
                    let (val, p2) = parse_string(json, v)?;
                    module_js_file_name = Some(val);
                    after = p2;
                } else if str_eq(key.as_str(), "module_length") {
                    let (val, p2) = parse_json_u64(json, v)?;
                    module_length = Some(val);
                    after = p2;
                } else if str_eq(key.as_str(), "module_js_length") {
                    let (val, p2) = parse_json_u64(json, v)?;
                    module_js_length = Some(val);
                    after = p2;
                } else if str_eq(key.as_str(), "bundle_file_format") {
                    let (tag, p2) = parse_string(json, v)?;
                    bundle_file_format = Some(parse_format_tag(tag.as_str())?);
                    after = p2;
                } else if str_eq(key.as_str(), "bundle_file_length") {
                    let (val, p2) = parse_json_u64(json, v)?;
                    bundle_file_length = Some(val);
                    after = p2;
                } else if str_eq(key.as_str(), "ext_com") {
                    let (val, p2) = parse_ext_com(json, v)?;
                    ext_com = val;
                    after = p2;
                } else {
                    after = skip_value(json, v)?;
                }
                let q2 = skip_ws(json, after);
                if q2 >= n {
                    return Err(JsonError);
                }
                let c2 = json.get_char(q2);
                if c2 == '}' {
                    let fin = skip_ws(json, q2 + 1);
                    if fin != n {
                        return Err(JsonError);
                    }
                    break ;
                }
                if c2 != ',' {
                    return Err(JsonError);
                }
                let next = skip_ws(json, q2 + 1);
                if next <= i {
                    return Err(JsonError);
                }
                i = next;
            }
        }
        let module_type = match module_type {
            Some(v) => v,
            None => {
                return Err(JsonError);
            },
        };
        let module_kind = match module_kind {
            Some(v) => v,
            None => {
                return Err(JsonError);
            },
        };
        let module_file_name = match module_file_name {
            Some(v) => v,
            None => {
                return Err(JsonError);
            },
        };
        let module_js_file_name = match module_js_file_name {
            Some(v) => v,
            None => {
                return Err(JsonError);
            },
        };
        let module_length = match module_length {
            Some(v) => usize_of_u64(v)?,
            None => {
                return Err(JsonError);
            },
        };
        let module_js_length = match module_js_length {
            Some(v) => usize_of_u64(v)?,
            None => {
                return Err(JsonError);
            },
        };
        let bundle_file_format = match bundle_file_format {
            Some(v) => v,
            None => {
                return Err(JsonError);
            },
        };
        let bundle_file_length = match bundle_file_length {
            Some(v) => usize_of_u64(v)?,
            None => {
                return Err(JsonError);
            },
        };
        Ok(
            YakModuleHeader {
                module_type,
                module_kind,
                module_file_name,
                module_js_file_name,
                module_length,
                module_js_length,
                bundle_file_format,
                bundle_file_length,
                ext_com,
            },
        )
    }
}

fn usize_of_u64(v: u64) -> (r: Result<usize, JsonError>)
    ensures
        r matches Ok(u) ==> u == v,
{
    if v <= usize::MAX as u64 {
        Ok(v as usize)
    } else {
        Err(JsonError)
    }
}

fn parse_type_tag(tag: &str) -> (r: Result<YakModuleType, JsonError>) {
    if str_eq(tag, "WASI") {
        Ok(YakModuleType::WASI)
    } else if str_eq(tag, "Emscripten") {
        Ok(YakModuleType::Emscripten)
    } else if str_eq(tag, "Pyodide") {
        Ok(YakModuleType::Pyodide)
    } else {
        Err(JsonError)
    }
}

fn parse_kind_tag(tag: &str) -> (r: Result<YakModuleKind, JsonError>) {
    if str_eq(tag, "Function") {
        Ok(YakModuleKind::Function)
    } else if str_eq(tag, "Execution") {
        Ok(YakModuleKind::Execution)
    } else if str_eq(tag, "Procedure") {
        Ok(YakModuleKind::Procedure)
    } else {
        Err(JsonError)
    }
}

fn parse_format_tag(tag: &str) -> (r: Result<BundleFileFormat, JsonError>) {
    if str_eq(tag, "TarGz") {
        Ok(BundleFileFormat::TarGz)
    } else if str_eq(tag, "Binary") {
        Ok(BundleFileFormat::Binary)
    } else {
        Err(JsonError)
    }
}

fn parse_ext_com(s: &str, pos: usize) -> (r: Result<
    (Option<ExternalCommunication>, usize),
    JsonError,
>)
    requires
        pos <= s@.len(),
    ensures
        r matches Ok(p) ==> pos < p.1 <= s@.len(),
{
    let n: usize = s.unicode_len();
    if pos < n && s.get_char(pos) == 'n' {
        if n - pos >= 4 && s.get_char(pos + 1) == 'u' && s.get_char(pos + 2) == 'l' && s.get_char(
            pos + 3,
        ) == 'l' {
            return Ok((None, pos + 4));
        }
        return Err(JsonError);
    }
    if pos >= n || s.get_char(pos) != '{' {
        return Err(JsonError);
    }
    let mut endpoint: Option<String> = None;
    let mut use_tls: Option<bool> = None;
    let mut ca_cert_pem: Option<Vec<u8>> = None;
    let mut i: usize = skip_ws(s, pos + 1);
    if i < n && s.get_char(i) == '}' {
        return Err(JsonError);
    }
    loop
        invariant
            pos < i <= n,
            n == s@.len(),
        decreases n - i,
    {
        let (key, p) = parse_string(s, i)?;
        let q = skip_ws(s, p);
        if q >= n || s.get_char(q) != ':' {
            return Err(JsonError);
        }
        let v = skip_ws(s, q + 1);
        if v <= i {
            return Err(JsonError);
        }
        let after: usize;
        if str_eq(key.as_str(), "endpoint") {
            let (val, p2) = parse_string(s, v)?;
            endpoint = Some(val);
            after = p2;
        } else if str_eq(key.as_str(), "use_tls") {
            let (val, p2) = parse_json_bool(s, v)?;
            use_tls = Some(val);
            after = p2;
        } else if str_eq(key.as_str(), "ca_cert_pem") {
            if v < n && s.get_char(v) == 'n' {
                let p2 = crate::json::parse_opt_string(s, v);
                match p2 {
                    Ok((None, np)) => {
                        ca_cert_pem = None;
                        after = np;
                    },
                    _ => {
                        return Err(JsonError);
                    },
                }
            } else {
                let (val, p2) = parse_u8_array(s, v)?;
                ca_cert_pem = Some(val);
                after = p2;
            }
        } else {
            after = skip_value(s, v)?;
        }
        let q2 = skip_ws(s, after);
        if q2 >= n {
            return Err(JsonError);
        }
        let c2 = s.get_char(q2);
        if c2 == '}' {
            let endpoint = match endpoint {
                Some(v2) => v2,
                None => {
                    return Err(JsonError);
                },
            };
            let use_tls = match use_tls {
                Some(v2) => v2,
                None => {
                    return Err(JsonError);
                },
            };
            return Ok((Some(ExternalCommunication { endpoint, use_tls, ca_cert_pem }), q2 + 1));
        }
        if c2 != ',' {
            return Err(JsonError);
        }
        let next = skip_ws(s, q2 + 1);
        if next <= i {
            return Err(JsonError);
        }
        i = next;
    }
}

/// The container cannot be produced or read back.
#[derive(Debug, Clone, PartialEq, Eq, Structural)]
pub enum YakError {
    /// The header does not fit a 32-bit length or is not valid JSON.
    BadHeader,
    /// The blob is shorter than its header claims.
    Truncated,
}

fn append_bytes(out: &mut Vec<u8>, chunk: &Vec<u8>)
    ensures
        final(out)@ == old(out)@ + chunk@,
{
    let ghost pre = out@;
    out.extend_from_slice(chunk.as_slice());
    proof {
        assert(out@ =~= pre + chunk@);
    }
}

fn copy_range(v: &Vec<u8>, from: usize, to: usize) -> (r: Vec<u8>)
    requires
        from <= to <= v@.len(),
    ensures
        r@ == v@.subrange(from as int, to as int),
{
    let mut out: Vec<u8> = Vec::new();
    let mut i: usize = from;
    while i < to
        invariant
            from <= i <= to <= v@.len(),
            out@ == v@.subrange(from as int, i as int),
        decreases to - i,
    {
        out.push(v[i]);
        proof {
            assert(v@.subrange(from as int, i as int + 1) =~= v@.subrange(
                from as int,
                i as int,
            ).push(v@[i as int]));
        }
        i = i + 1;
    }
    out
}

impl YakModule {
    /// A WASI module holding only the module segment.
    pub fn new(module: &Vec<u8>) -> (r: YakModule)
        ensures
            r.header.module_type is WASI,
            r.module@ == module@,
            r.module_js@ == Seq::<u8>::empty(),
            r.bundle_file@ == Seq::<u8>::empty(),
            r.digest@ == Seq::<u8>::empty(),
            r.signature.signature@ == Seq::<u8>::empty(),
    {
        YakModule {
            header: Default::default(),
            module: crate::util::copy_bytes(module),
            module_js: Vec::new(),
            bundle_file: Vec::new(),
            digest: Vec::new(),
            signature: YakModuleSignature { signature: Vec::new() },
        }
    }

    /// An Emscripten module with its companion script.
    pub fn new_with_js(module: &Vec<u8>, module_js: &Vec<u8>) -> (r: YakModule)
        ensures
            r.header.module_type is Emscripten,
            r.module@ == module@,
            r.module_js@ == module_js@,
            r.bundle_file@ == Seq::<u8>::empty(),
            r.digest@ == Seq::<u8>::empty(),
            r.signature.signature@ == Seq::<u8>::empty(),
    {
        let mut header: YakModuleHeader = Default::default();
        header.module_type = YakModuleType::Emscripten;
        YakModule {
            header,
            module: crate::util::copy_bytes(module),
            module_js: crate::util::copy_bytes(module_js),
            bundle_file: Vec::new(),
            digest: Vec::new(),
            signature: YakModuleSignature { signature: Vec::new() },
        }
    }

    /// A Pyodide module; the code rides in the bundle.
    pub fn new_pyodide() -> (r: YakModule)
        ensures
            r.header.module_type is Pyodide,
            r.module@ == Seq::<u8>::empty(),
            r.module_js@ == Seq::<u8>::empty(),
    {
        let mut header: YakModuleHeader = Default::default();
        header.module_type = YakModuleType::Pyodide;
        YakModule {
            header,
            module: Vec::new(),
            module_js: Vec::new(),
            bundle_file: Vec::new(),
            digest: Vec::new(),
            signature: YakModuleSignature { signature: Vec::new() },
        }
    }

    /// The module segment.
    pub fn module(&self) -> (r: &Vec<u8>)
        ensures
            r@ == self.module@,
    {
        &self.module
    }

    /// The companion-script segment.
    pub fn module_js(&self) -> (r: &Vec<u8>)
        ensures
            r@ == self.module_js@,
    {
        &self.module_js
    }

    /// Replaces the bundle with raw bytes and marks it as such.
    pub fn set_bundle_binary(&mut self, b: &[u8])
        ensures
            final(self).bundle_file@ == b@,
            final(self).header.bundle_file_format is Binary,
            final(self).header.module_type == old(self).header.module_type,
            final(self).module@ == old(self).module@,
            final(self).module_js@ == old(self).module_js@,
            final(self).digest@ == old(self).digest@,
            final(self).signature.signature@ == old(self).signature.signature@,
    {
        let mut copy: Vec<u8> = Vec::new();
        let mut i: usize = 0;
        while i < b.len()
            invariant
                0 <= i <= b@.len(),
                copy@ == b@.subrange(0, i as int),
            decreases b@.len() - i,
        {
            copy.push(b[i]);
            proof {
                assert(b@.subrange(0, i as int + 1) =~= b@.subrange(0, i as int).push(
                    b@[i as int],
                ));
            }
            i = i + 1;
        }
        proof {
            assert(b@.subrange(0, b@.len() as int) =~= b@);
        }
        self.bundle_file = copy;
        self.header.bundle_file_format = BundleFileFormat::Binary;
    }

    /// Measures the segments into the header and renders everything the
    /// digest covers: the header's length and JSON, then the segments.
    pub fn write_content(&mut self) -> (r: Result<Vec<u8>, YakError>)
        ensures
            final(self).module@ == old(self).module@,
            final(self).module_js@ == old(self).module_js@,
            final(self).bundle_file@ == old(self).bundle_file@,
            final(self).digest@ == old(self).digest@,
            final(self).signature.signature@ == old(self).signature.signature@,
            final(self).header.module_length == old(self).module@.len(),
            final(self).header.module_js_length == old(self).module_js@.len(),
            final(self).header.bundle_file_length == old(self).bundle_file@.len(),
            final(self).header.module_type == old(self).header.module_type,
            final(self).header.module_kind == old(self).header.module_kind,
            final(self).header.module_file_name@ == old(self).header.module_file_name@,
            final(self).header.module_js_file_name@ == old(self).header.module_js_file_name@,
            final(self).header.bundle_file_format == old(self).header.bundle_file_format,
            final(self).header.ext_com == old(self).header.ext_com,
            r matches Ok(out) ==> out@ == content_of(*final(self)),
    {
        self.header.module_length = self.module.len();
        self.header.module_js_length = self.module_js.len();
        self.header.bundle_file_length = self.bundle_file.len();
        let header_json_text = self.header.to_json();
        let header_bytes = header_json_text.as_str().as_bytes_vec();
        if header_bytes.len() as u64 > 0xFFFF_FFFFu64 {
            return Err(YakError::BadHeader);
        }
        let hlen: u32 = header_bytes.len() as u32;
        let mut out: Vec<u8> = Vec::new();
        out.push((hlen % 256) as u8);
        out.push(((hlen / 256) % 256) as u8);
        out.push(((hlen / 65536) % 256) as u8);
        out.push(((hlen / 16777216) % 256) as u8);
        proof {
            assert(out@ =~= le32(hlen));
        }
        append_bytes(&mut out, &header_bytes);
        append_bytes(&mut out, &self.module);
        append_bytes(&mut out, &self.module_js);
        append_bytes(&mut out, &self.bundle_file);
        proof {
            assert(out@ =~= content_of(*self));
        }
        Ok(out)
    }

    /// Renders the whole container: the measured content — with the header
    /// lengths updated to the segment sizes — its fresh 32-byte digest,
    /// which is also stored back, and the signature.
    pub fn write(&mut self) -> (r: Result<Vec<u8>, YakError>)
        ensures
            final(self).module@ == old(self).module@,
            final(self).module_js@ == old(self).module_js@,
            final(self).bundle_file@ == old(self).bundle_file@,
            final(self).signature.signature@ == old(self).signature.signature@,
            final(self).header.module_length == old(self).module@.len(),
            final(self).header.module_js_length == old(self).module_js@.len(),
            final(self).header.bundle_file_length == old(self).bundle_file@.len(),
            final(self).header.module_type == old(self).header.module_type,
            final(self).header.module_kind == old(self).header.module_kind,
            final(self).header.module_file_name@ == old(self).header.module_file_name@,
            final(self).header.module_js_file_name@ == old(self).header.module_js_file_name@,
            final(self).header.bundle_file_format == old(self).header.bundle_file_format,
            final(self).header.ext_com == old(self).header.ext_com,
            r matches Ok(out) ==> final(self).digest@ == sha256_of(content_of(*final(self)))
                && out@ == content_of(*final(self)) + final(self).digest@ + final(self).signature.signature@,
    {
        let content = self.write_content()?;
        let digest = sha256(&content);
        self.digest = crate::util::copy_bytes(&digest);
        let mut out = content;
        append_bytes(&mut out, &digest);
        append_bytes(&mut out, &self.signature.signature);
        proof {
            assert(self.digest@ =~= digest@);
        }
        Ok(out)
    }

    /// Reads a container back: the header's length and JSON, the segments
    /// the header measures, a 32-byte digest, and the signature as all the
    /// remaining bytes.
    #[verifier::rlimit(100)]
    pub fn read(bytes: &Vec<u8>) -> (r: Result<YakModule, YakError>)
        ensures
            r matches Ok(m) ==> m.module@.len() == m.header.module_length
                && m.module_js@.len() == m.header.module_js_length && m.bundle_file@.len()
                == m.header.bundle_file_length && m.digest@.len() == 32 && (exists|hb: Seq<u8>|
                #[trigger] le32(hb.len() as u32) == bytes@.subrange(0, 4) && hb == encode_utf8(
                    header_json(m.header),
                ) && bytes@ == bytes@.subrange(0, 4) + hb + m.module@ + m.module_js@
                    + m.bundle_file@ + m.digest@ + m.signature.signature@),
    {
        let n = bytes.len();
        if n < 4 {
            return Err(YakError::Truncated);
        }
        let hlen: usize = (bytes[0] as usize) + 256 * (bytes[1] as usize) + 65536 * (
        bytes[2] as usize) + 16777216 * (bytes[3] as usize);
        if n - 4 < hlen {
            return Err(YakError::Truncated);
        }
        let header_bytes = copy_range(bytes, 4, 4 + hlen);
        let header_text = match bytes_to_string(header_bytes) {
            Ok(t) => t,
            Err(_) => {
                return Err(YakError::BadHeader);
            },
        };
        let header = match YakModuleHeader::from_canonical(header_text.as_str()) {
            Ok(h) => h,
            Err(_) => {
                return Err(YakError::BadHeader);
            },
        };
        let mut offset: usize = 4 + hlen;
        if n - offset < header.module_length {
            return Err(YakError::Truncated);
        }
        let module = copy_range(bytes, offset, offset + header.module_length);
        offset = offset + header.module_length;
        if n - offset < header.module_js_length {
            return Err(YakError::Truncated);
        }
        let module_js = copy_range(bytes, offset, offset + header.module_js_length);
        offset = offset + header.module_js_length;
        if n - offset < header.bundle_file_length {
            return Err(YakError::Truncated);
        }
        let bundle_file = copy_range(bytes, offset, offset + header.bundle_file_length);
        offset = offset + header.bundle_file_length;
        if n - offset < 32 {
            return Err(YakError::Truncated);
        }
        let digest = copy_range(bytes, offset, offset + 32);
        offset = offset + 32;
        let signature = copy_range(bytes, offset, n);
        proof {
            let b0 = bytes@[0] as int;
            let b1 = bytes@[1] as int;
            let b2 = bytes@[2] as int;
            let b3 = bytes@[3] as int;
            let k1 = b1 + 256 * b2 + 65536 * b3;
            let k2 = b2 + 256 * b3;
            assert(hlen % 256 == b0 && hlen / 256 == k1) by (nonlinear_arith)
                requires
                    hlen == b0 + 256 * k1,
                    0 <= b0 < 256,
                    k1 >= 0,
            ;
            assert(k1 % 256 == b1 && k1 / 256 == k2) by (nonlinear_arith)
                requires
                    k1 == b1 + 256 * k2,
                    0 <= b1 < 256,
                    k2 >= 0,
            ;
            assert(hlen / 65536 == k2) by (nonlinear_arith)
                requires
                    hlen == (b0 + 256 * b1) + 65536 * k2,
                    0 <= b0 + 256 * b1 < 65536,
                    k2 >= 0,
            ;
            assert(k2 % 256 == b2) by (nonlinear_arith)
                requires
                    k2 == b2 + 256 * b3,
                    0 <= b2 < 256,
                    b3 >= 0,
            ;
            assert(hlen / 16777216 == b3) by (nonlinear_arith)
                requires
                    hlen == (b0 + 256 * b1 + 65536 * b2) + 16777216 * b3,
                    0 <= b0 + 256 * b1 + 65536 * b2 < 16777216,
                    b3 >= 0,
            ;
            let hb = bytes@.subrange(4, 4 + hlen as int);
            assert(le32(hlen as u32) =~= bytes@.subrange(0, 4));
            assert(hb.len() == hlen);
            assert(bytes@ =~= bytes@.subrange(0, 4) + hb + module@ + module_js@ + bundle_file@
                + digest@ + signature@);
        }
        Ok(
            YakModule {
                header,
                module,
                module_js,
                bundle_file,
                digest,
                signature: YakModuleSignature { signature },
            },
        )
    }
}

/// Relies on `String::from_utf8`: the string's characters decode from
/// exactly the given bytes, and invalid UTF-8 is refused.
#[verifier::external_body]
fn bytes_to_string(bytes: Vec<u8>) -> (r: Result<String, ()>)
    ensures
        r matches Ok(s) ==> encode_utf8(s@) == bytes@,
{
    String::from_utf8(bytes).map_err(|_| ())
}

} // verus!
