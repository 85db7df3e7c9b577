//! Records exchanged with guest modules: tickets, save responses and the
//! argument shapes of the module catalogue, with JSON for the ones the
//! data plane itself reads and writes.

use vstd::prelude::*;

use crate::json::json_string;
use crate::json::parse_string;
use crate::json::JsonError;

verus! {

/// The body of a `DoGet` ticket: which target and column to read.
#[derive(Debug)]
pub struct GetTicket {
    pub target: String,
    pub column_name: String,
}

/// The exact JSON text of a ticket.
pub open spec fn ticket_json(target: Seq<char>, column_name: Seq<char>) -> Seq<char> {
    "{\"target\":"@ + json_string(target) + ",\"column_name\":"@ + json_string(column_name)
        + "}"@
}

impl GetTicket {
    /// Serialises the ticket, exactly.
    pub fn to_json(self: &Self) -> (r: String)
        ensures
            r@ == ticket_json(self.target@, self.column_name@),
    {
        let mut out = "{\"target\":".to_owned();
        crate::json::append_json_string(&mut out, self.target.as_str());
        out.append(",\"column_name\":");
        crate::json::append_json_string(&mut out, self.column_name.as_str());
        out.append("}");
        proof {
            assert(out@ =~= ticket_json(self.target@, self.column_name@));
        }
        out
    }

    /// Reads a ticket from JSON text. Exactly the canonical shape the
    /// writer and the system's clients emit is accepted, so whatever is
    /// accepted is precisely the canonical ticket of the returned fields;
    /// and every canonical ticket whose fields need no escaping — every
    /// identifier does not — is accepted with exactly those fields.
    /// A refusal here is what `DoGet` reports as an invalid argument.
    pub fn from_json(json: &str) -> (r: Result<GetTicket, JsonError>)
        ensures
            r matches Ok(tk) ==> json@ == ticket_json(tk.target@, tk.column_name@),
            forall|t: Seq<char>, c: Seq<char>|
                json@ == #[trigger] ticket_json(t, c) && crate::json::plain_text(t)
                    && crate::json::plain_text(c) ==> (r matches Ok(tk) && tk.target@ == t
                    && tk.column_name@ == c),
    {
        let n: usize = json.unicode_len();
        let ghost l1 = "{\"target\":"@;
        let ghost l2 = ",\"column_name\":"@;
        let ghost l3 = "}"@;
        proof {
            reveal_strlit("{\"target\":");
            reveal_strlit(",\"column_name\":");
            reveal_strlit("}");
        }
        let p1 = match crate::json::parse_exact(json, 0, "{\"target\":") {
            Ok(p) => p,
            Err(e) => {
                proof {
                    assert forall|t: Seq<char>, c: Seq<char>|
                        json@ == ticket_json(t, c) && crate::json::plain_text(t)
                            && crate::json::plain_text(c) implies false by {
                        assert(json@.len() >= 10);
                        assert(json@.subrange(0, 10) =~= l1);
                    }
                }
                return Err(e);
            },
        };
        let (target, p2) = match parse_string(json, p1) {
            Ok(p) => p,
            Err(e) => {
                proof {
                    assert forall|t: Seq<char>, c: Seq<char>|
                        json@ == ticket_json(t, c) && crate::json::plain_text(t)
                            && crate::json::plain_text(c) implies false by {
                        assert(json@.skip(10) =~= json_string(t) + (l2 + json_string(c) + l3));
                    }
                }
                return Err(e);
            },
        };
        let p3 = match crate::json::parse_exact(json, p2, ",\"column_name\":") {
            Ok(p) => p,
            Err(e) => {
                proof {
                    assert forall|t: Seq<char>, c: Seq<char>|
                        json@ == ticket_json(t, c) && crate::json::plain_text(t)
                            && crate::json::plain_text(c) implies false by {
                        assert(json@.skip(10) =~= json_string(t) + (l2 + json_string(c) + l3));
                        assert(p2 == 10 + json_string(t).len());
                        assert(json@.subrange(p2 as int, p2 + 15) =~= l2);
                    }
                }
                return Err(e);
            },
        };
        let (column_name, p4) = match parse_string(json, p3) {
            Ok(p) => p,
            Err(e) => {
                proof {
                    assert forall|t: Seq<char>, c: Seq<char>|
                        json@ == ticket_json(t, c) && crate::json::plain_text(t)
                            && crate::json::plain_text(c) implies false by {
                        assert(json@.skip(10) =~= json_string(t) + (l2 + json_string(c) + l3));
                        assert(p2 == 10 + json_string(t).len());
                        assert(json@.skip(p3 as int) =~= json_string(c) + l3);
                    }
                }
                return Err(e);
            },
        };
        let p5 = match crate::json::parse_exact(json, p4, "}") {
            Ok(p) => p,
            Err(e) => {
                proof {
                    assert forall|t: Seq<char>, c: Seq<char>|
                        json@ == ticket_json(t, c) && crate::json::plain_text(t)
                            && crate::json::plain_text(c) implies false by {
                        assert(json@.skip(10) =~= json_string(t) + (l2 + json_string(c) + l3));
                        assert(p2 == 10 + json_string(t).len());
                        assert(json@.skip(p3 as int) =~= json_string(c) + l3);
                        assert(p4 == p3 + json_string(c).len());
                        assert(json@.subrange(p4 as int, p4 + 1) =~= l3);
                    }
                }
                return Err(e);
            },
        };
        if p5 != n {
            proof {
                assert forall|t: Seq<char>, c: Seq<char>|
                    json@ == ticket_json(t, c) && crate::json::plain_text(t)
                        && crate::json::plain_text(c) implies false by {
                    assert(json@.skip(10) =~= json_string(t) + (l2 + json_string(c) + l3));
                    assert(p2 == 10 + json_string(t).len());
                    assert(json@.skip(p3 as int) =~= json_string(c) + l3);
                    assert(p4 == p3 + json_string(c).len());
                    assert(json@.len() == p4 + 1);
                }
            }
            return Err(JsonError);
        }
        proof {
            assert(json@ =~= ticket_json(target@, column_name@));
            assert forall|t: Seq<char>, c: Seq<char>|
                json@ == ticket_json(t, c) && crate::json::plain_text(t) && crate::json::plain_text(
                c) implies target@ == t && column_name@ == c by {
                assert(json@.skip(10) =~= json_string(t) + (l2 + json_string(c) + l3));
                assert(target@ == t);
                assert(p2 == 10 + json_string(t).len());
                assert(json@.skip(p3 as int) =~= json_string(c) + l3);
                assert(column_name@ == c);
            }
        }
        Ok(GetTicket { target, column_name })
    }
}

/// The body of a save response: the created table's name.
#[derive(Debug)]
pub struct SaveResponse {
    pub table_name: String,
}

/// The exact JSON text of a save response.
pub open spec fn save_response_json(table_name: Seq<char>) -> Seq<char> {
    "{\"table_name\":"@ + json_string(table_name) + "}"@
}

impl SaveResponse {
    /// Serialises the response, exactly.
    pub fn to_json(self: &Self) -> (r: String)
        ensures
            r@ == save_response_json(self.table_name@),
    {
        let mut out = "{\"table_name\":".to_owned();
        crate::json::append_json_string(&mut out, self.table_name.as_str());
        out.append("}");
        proof {
            assert(out@ =~= save_response_json(self.table_name@));
        }
        out
    }
}

/// Input of an Emscripten function module.
#[derive(Debug)]
pub struct FunctionEmscriptenInput {
    pub data: Vec<Vec<u8>>,
    pub args: String,
}

/// Output of an Emscripten function module.
#[derive(Debug)]
pub struct FunctionEmscriptenOutput {
    pub output: Vec<u8>,
}

/// Input of a Pyodide function module.
#[derive(Debug)]
pub struct FunctionPyodideInput {
    pub data: Vec<String>,
    pub args: String,
}

/// Output of a Pyodide function module.
#[derive(Debug)]
pub struct FunctionPyodideOutput {
    pub output: String,
}

/// Shape of a matrix argument.
#[derive(Debug)]
pub struct MatrixShape {
    pub shape: Vec<usize>,
}

/// Argument of the histogram verifier.
#[derive(Debug)]
pub struct HistogramVerifierArg {
    pub min_num_per_bin: i32,
}

/// Argument of a load call.
#[derive(Debug)]
pub struct LoadArg {
    pub target: String,
    pub column_name: String,
}

/// Row selection argument.
#[derive(Debug)]
pub struct GetArg {
    pub idx: Vec<usize>,
}

/// Column selection argument.
#[derive(Debug)]
pub struct ColumnArg {
    pub targets: Vec<String>,
}

/// Renaming argument.
#[derive(Debug)]
pub struct IdArg {
    pub rename: Vec<String>,
}

/// Stacking argument.
#[derive(Debug)]
pub struct StackArg {
    pub axis: usize,
}

/// Fill argument.
#[derive(Debug)]
pub struct FullArg {
    pub value: String,
    pub num: usize,
}

/// Mode argument.
#[derive(Debug)]
pub struct ModeArg {
    pub dropna: bool,
}

/// Variance argument.
#[derive(Debug)]
pub struct VarArg {
    pub ddof: usize,
}

/// String comparison argument.
#[derive(Debug)]
pub struct CmpStrArg {
    pub value: String,
}

/// T-test argument.
#[derive(Debug)]
pub struct TTestArg {
    pub alternative: String,
}

/// Summation argument.
#[derive(Debug)]
pub struct SumArg {
    pub axis: usize,
}

/// Regular-expression argument.
#[derive(Debug)]
pub struct RegexArg {
    pub value: String,
}

/// Argument of the comparison-filter verifier.
#[derive(Debug)]
pub struct CmpFilterVerifierArg {
    pub minimum_true: i32,
}

/// Output of a stub module run.
#[derive(Debug)]
pub enum StubOutput {
    Ids(Vec<u64>),
    Record((u64, String, bool)),
    Error(String),
}

/// Responses of a stub run, keyed by id.
#[derive(Debug)]
pub struct StubResponse {
    pub res: std::collections::HashMap<u64, String>,
}

/// Result of running a whole plan.
#[derive(Debug)]
pub struct RunnerResult {
    pub res: Option<StubResponse>,
    pub error: Option<String>,
}

/// Argument of the k-anonymity verifier.
#[derive(Debug)]
pub struct VerifierKAnonyArg {
    pub k: usize,
}

/// Arguments of the count verifier.
#[derive(Debug)]
pub struct CountVerifierArgs {
    pub checkpoint: String,
    pub minimum_count: usize,
}

/// Arguments of an image resize.
#[derive(Debug)]
pub struct ImgResizeArgs {
    pub width: usize,
    pub height: usize,
}

/// Arguments of an image blackout.
#[derive(Debug)]
pub struct ImgBlackoutArgs {
    pub object_labels: Vec<String>,
}

/// Reject labels of the detection verifier.
#[derive(Debug)]
pub struct ImgDetectionVerifierRejectArgs {
    pub reject_object_labels: Vec<String>,
}

/// Required blackout labels of the detection verifier.
#[derive(Debug)]
pub struct ImgDetectionVerifierRequireArgs {
    pub black_out_object_labels: Vec<String>,
}

} // verus!
