//! The interface extractor: a best-effort preview of a module's entry points,
//! found by looking for well-known entry-point names in the module's bytes.

use vstd::prelude::*;
use vstd::string::*;
use crate::text::{chars_of, contains_chars, contains_text, str_equal, texts, lemma_texts_push};

verus! {

/// The text that lossy UTF-8 decoding makes of `bytes`.
pub uninterp spec fn utf8_lossy_of(bytes: Seq<u8>) -> Seq<char>;

/// Relies on `String::from_utf8_lossy`: the characters of `bytes` read as
/// UTF-8, with each invalid sequence replaced; the result depends on the bytes
/// alone.
#[verifier::external_body]
fn lossy_text(bytes: &[u8]) -> (r: Vec<char>)
    ensures
        r@ == utf8_lossy_of(bytes@),
{
    String::from_utf8_lossy(bytes).chars().collect()
}

/// One entry point of the preview.
#[derive(Debug, Clone)]
pub struct FunctionInfo {
    pub name: String,
    pub param_count: u32,
    pub return_type: Option<String>,
    pub is_view: bool,
}

/// What a `FunctionInfo` says, over character sequences.
pub struct FunctionView {
    pub name: Seq<char>,
    pub param_count: u32,
    pub return_type: Option<Seq<char>>,
    pub is_view: bool,
}

/// The character sequence of an optional string.
pub open spec fn opt_text(s: Option<String>) -> Option<Seq<char>> {
    match s {
        Some(t) => Some(t@),
        None => None,
    }
}

impl View for FunctionInfo {
    type V = FunctionView;

    open spec fn view(&self) -> FunctionView {
        FunctionView {
            name: self.name@,
            param_count: self.param_count,
            return_type: opt_text(self.return_type),
            is_view: self.is_view,
        }
    }
}

/// The views of a list of entry points.
pub open spec fn function_views(v: Seq<FunctionInfo>) -> Seq<FunctionView> {
    v.map_values(|f: FunctionInfo| f@)
}

/// The preview of one module's interface.
#[derive(Debug, Clone)]
pub struct AbiExtractionResult {
    pub success: bool,
    pub errors: Vec<String>,
    pub functions: Vec<FunctionInfo>,
    pub types: Vec<String>,
}

/// What an `AbiExtractionResult` says, over character sequences.
pub struct AbiView {
    pub success: bool,
    pub errors: Seq<Seq<char>>,
    pub functions: Seq<FunctionView>,
    pub types: Seq<Seq<char>>,
}

impl View for AbiExtractionResult {
    type V = AbiView;

    open spec fn view(&self) -> AbiView {
        AbiView {
            success: self.success,
            errors: texts(self.errors@),
            functions: function_views(self.functions@),
            types: texts(self.types@),
        }
    }
}

/// The entry-point names looked for, in the order they are reported.
pub open spec fn vocabulary() -> Seq<Seq<char>> {
    seq![
        "init"@,
        "set_admin"@,
        "get_admin"@,
        "transfer"@,
        "balance"@,
        "mint"@,
        "burn"@,
        "vote"@,
        "proposal"@,
    ]
}

/// The parameter count guessed for an entry point of this name.
pub open spec fn guessed_param_count(name: Seq<char>) -> u32 {
    if name == "init"@ {
        1
    } else if name == "get_admin"@ || name == "balance"@ {
        0
    } else if name == "set_admin"@ || name == "transfer"@ || name == "mint"@ {
        2
    } else {
        1
    }
}

/// Whether an entry point of this name is taken to be read-only.
pub open spec fn is_view_name(name: Seq<char>) -> bool {
    name == "get_admin"@ || name == "balance"@
}

/// The return-type label guessed for an entry point of this name.
pub open spec fn guessed_return_type(name: Seq<char>) -> Option<Seq<char>> {
    if is_view_name(name) {
        Some("Address"@)
    } else {
        Some("void"@)
    }
}

/// The preview record made for a detected name.
pub open spec fn function_record(name: Seq<char>) -> FunctionView {
    FunctionView {
        name,
        param_count: guessed_param_count(name),
        return_type: guessed_return_type(name),
        is_view: is_view_name(name),
    }
}

/// The terms that occur in `text`, in the order of `terms`.
pub open spec fn detected_terms(text: Seq<char>, terms: Seq<Seq<char>>) -> Seq<Seq<char>>
    decreases terms.len(),
{
    if terms.len() == 0 {
        seq![]
    } else {
        let prev = detected_terms(text, terms.drop_last());
        if contains_text(text, terms.last()) {
            prev.push(terms.last())
        } else {
            prev
        }
    }
}

/// The vocabulary names that occur in `text`.
pub open spec fn detected_names(text: Seq<char>) -> Seq<Seq<char>> {
    detected_terms(text, vocabulary())
}

/// The preview of a module whose text is `text`: one record per detected
/// name, and the same names as type names; it never fails.
pub open spec fn preview_of(text: Seq<char>) -> AbiView {
    AbiView {
        success: true,
        errors: seq![],
        functions: detected_names(text).map_values(|n: Seq<char>| function_record(n)),
        types: detected_names(text),
    }
}

fn vocabulary_terms() -> (r: Vec<&'static str>)
    ensures
        r@.map_values(|t: &str| t@) == vocabulary(),
{
    let r = vec!["init", "set_admin", "get_admin", "transfer", "balance", "mint", "burn", "vote", "proposal"];
    assert(r@.map_values(|t: &str| t@) =~= vocabulary());
    r
}

/// Guesses how many parameters an entry point of this name takes.
pub fn guess_param_count(func_name: &str) -> (r: u32)
    ensures
        r == guessed_param_count(func_name@),
{
    if str_equal(func_name, "init") {
        1
    } else if str_equal(func_name, "get_admin") || str_equal(func_name, "balance") {
        0
    } else if str_equal(func_name, "set_admin") || str_equal(func_name, "transfer")
        || str_equal(func_name, "mint") {
        2
    } else {
        1
    }
}

/// Guesses the return-type label of an entry point of this name.
pub fn guess_return_type(func_name: &str) -> (r: Option<String>)
    ensures
        opt_text(r) == guessed_return_type(func_name@),
{
    if is_view_function(func_name) {
        Some(String::from_str("Address"))
    } else {
        Some(String::from_str("void"))
    }
}

/// Whether an entry point of this name is taken to be read-only.
pub fn is_view_function(func_name: &str) -> (r: bool)
    ensures
        r == is_view_name(func_name@),
{
    str_equal(func_name, "get_admin") || str_equal(func_name, "balance")
}

/// Finds the vocabulary names in a module's text. `Err` when none occurs.
pub fn extract_embedded_spec(text: &Vec<char>) -> (r: Result<Vec<FunctionInfo>, String>)
    ensures
        match r {
            Ok(fs) => {
                &&& function_views(fs@) == detected_names(text@).map_values(
                    |n: Seq<char>| function_record(n),
                )
                &&& fs@.len() > 0
            },
            Err(e) => e@ == "No contract functions detected"@ && detected_names(text@).len() == 0,
        },
{
    let terms = vocabulary_terms();
    let mut functions: Vec<FunctionInfo> = Vec::new();
    let mut i: usize = 0;
    while i < terms.len()
        invariant
            i <= terms@.len(),
            terms@.map_values(|t: &str| t@) == vocabulary(),
            function_views(functions@) == detected_terms(text@, vocabulary().take(i as int)).map_values(
                |n: Seq<char>| function_record(n),
            ),
        decreases terms@.len() - i,
    {
        let term = terms[i];
        assert(vocabulary().take(i + 1).drop_last() =~= vocabulary().take(i as int));
        assert(vocabulary().take(i + 1).last() == term@);
        if contains_chars(text, &chars_of(term)) {
            let f = FunctionInfo {
                name: String::from_str(term),
                param_count: guess_param_count(term),
                return_type: guess_return_type(term),
                is_view: is_view_function(term),
            };
            let ghost before = functions@;
            functions.push(f);
            assert(function_views(functions@) =~= function_views(before).push(f@));
        }
        assert(function_views(functions@) =~= detected_terms(text@, vocabulary().take(i + 1)).map_values(
            |n: Seq<char>| function_record(n),
        ));
        i += 1;
    }
    assert(vocabulary().take(9) =~= vocabulary());
    if functions.len() == 0 {
        Err(String::from_str("No contract functions detected"))
    } else {
        Ok(functions)
    }
}


/// The preview of a module whose bytes read as `text`: each vocabulary name
/// found in it, with its guessed shape, and the same names as type names.
/// Finding none is no error.
pub fn extract_abi_from_text(text: &Vec<char>) -> (r: AbiExtractionResult)
    ensures
        r@ == preview_of(text@),
{
    let errors: Vec<String> = Vec::new();
    let mut types: Vec<String> = Vec::new();
    let functions = match extract_embedded_spec(text) {
        Ok(fs) => fs,
        Err(_) => Vec::new(),
    };
    let ghost names = detected_names(text@);
    assert(function_views(functions@) =~= names.map_values(|n: Seq<char>| function_record(n)));
    assert(function_views(functions@).len() == functions@.len());
    let mut i: usize = 0;
    while i < functions.len()
        invariant
            i <= functions@.len(),
            function_views(functions@) == names.map_values(|n: Seq<char>| function_record(n)),
            functions@.len() == names.len(),
            texts(types@) == names.take(i as int),
        decreases functions@.len() - i,
    {
        assert(function_views(functions@)[i as int] == function_record(names[i as int]));
        let name = functions[i].name.clone();
        proof { lemma_texts_push(types@, name); }
        types.push(name);
        assert(names.take(i + 1) =~= names.take(i as int).push(names[i as int]));
        i += 1;
    }
    assert(names.take(names.len() as int) =~= names);
    let r = AbiExtractionResult { success: true, errors, functions, types };
    assert(r@.errors =~= seq![]);
    r
}

/// The best-effort interface preview of a module: its bytes are read as text
/// and searched for the vocabulary's entry-point names.
pub fn extract_abi(wasm_bytes: &[u8]) -> (r: AbiExtractionResult)
    ensures
        r@ == preview_of(utf8_lossy_of(wasm_bytes@)),
{
    let text = lossy_text(wasm_bytes);
    extract_abi_from_text(&text)
}

} // verus!
