//! The two structural fixes on JSON documents: completing tool parameter
//! schemas in requests, and completing token-usage details in responses.
use vstd::prelude::*;

use crate::json::{
    array_value, decimal, decode_value, encode_value, entries_of, json_bytes, number_value,
    object_has, object_new, object_put, object_take, object_value, parse_json, take_array,
    take_object, text_value, tree_of, Object, Tree,
};

verus! {

/// Completes a tool's parameter schema: an object without `type` gets
/// `type: "object"`, and `properties: {}` where that is missing too.
pub open spec fn fill_params(p: Tree) -> Tree {
    match p {
        Tree::Object(m) => if m.contains_key("type"@) {
            p
        } else if m.contains_key("properties"@) {
            Tree::Object(m.insert("type"@, Tree::Text("object"@)))
        } else {
            Tree::Object(
                m.insert("type"@, Tree::Text("object"@)).insert(
                    "properties"@,
                    Tree::Object(Map::empty()),
                ),
            )
        },
        _ => p,
    }
}

/// A parameter schema that `fill_params` changes.
pub open spec fn params_need_fill(p: Tree) -> bool {
    p is Object && !p->Object_0.contains_key("type"@)
}

/// The parameter schema of a tool: `function.parameters` when the tool has a
/// `function` entry, else its own `parameters`.
pub open spec fn tool_params(t: Tree) -> Option<Tree> {
    match t {
        Tree::Object(m) => if m.contains_key("function"@) {
            match m["function"@] {
                Tree::Object(f) => if f.contains_key("parameters"@) {
                    Some(f["parameters"@])
                } else {
                    None
                },
                _ => None,
            }
        } else if m.contains_key("parameters"@) {
            Some(m["parameters"@])
        } else {
            None
        },
        _ => None,
    }
}

/// A tool whose parameter schema gets completed.
pub open spec fn tool_needs_fill(t: Tree) -> bool {
    match tool_params(t) {
        Some(p) => params_need_fill(p),
        None => false,
    }
}

/// A tool with its parameter schema completed.
pub open spec fn fill_tool(t: Tree) -> Tree {
    match t {
        Tree::Object(m) => if m.contains_key("function"@) {
            match m["function"@] {
                Tree::Object(f) => if f.contains_key("parameters"@) {
                    Tree::Object(
                        m.insert(
                            "function"@,
                            Tree::Object(f.insert("parameters"@, fill_params(f["parameters"@]))),
                        ),
                    )
                } else {
                    t
                },
                _ => t,
            }
        } else if m.contains_key("parameters"@) {
            Tree::Object(m.insert("parameters"@, fill_params(m["parameters"@])))
        } else {
            t
        },
        _ => t,
    }
}

/// How many of the tools get their schema completed.
pub open spec fn count_needing(s: Seq<Tree>) -> nat
    decreases s.len(),
{
    if s.len() == 0 {
        0
    } else {
        count_needing(s.drop_last()) + if tool_needs_fill(s.last()) {
            1nat
        } else {
            0nat
        }
    }
}

/// The tools of a request, where it has an array under `tools`.
pub open spec fn request_tools(doc: Tree) -> Option<Seq<Tree>> {
    match doc {
        Tree::Object(m) => if m.contains_key("tools"@) {
            match m["tools"@] {
                Tree::List(s) => Some(s),
                _ => None,
            }
        } else {
            None
        },
        _ => None,
    }
}

/// A request document with every tool's parameter schema completed.
pub open spec fn patch_request_tree(doc: Tree) -> Tree {
    match request_tools(doc) {
        Some(s) => Tree::Object(
            doc->Object_0.insert("tools"@, Tree::List(s.map_values(|t: Tree| fill_tool(t)))),
        ),
        None => doc,
    }
}

/// How many tool schemas `patch_request_tree` completes.
pub open spec fn request_fix_count(doc: Tree) -> nat {
    match request_tools(doc) {
        Some(s) => count_needing(s),
        None => 0,
    }
}

fn fix_params(p: serde_json::Value) -> (r: (serde_json::Value, bool))
    ensures
        tree_of(r.0) == fill_params(tree_of(p)),
        r.1 == params_need_fill(tree_of(p)),
{
    match take_object(p) {
        Err(p) => (p, false),
        Ok(mut m) => {
            let ghost m0 = entries_of(m);
            proof {
                lemma_key_names();
            }
            if object_has(&m, "type") {
                (object_value(m), false)
            } else {
                object_put(&mut m, "type".to_owned(), text_value("object".to_owned()));
                let ghost m1 = m0.insert("type"@, Tree::Text("object"@));
                if !object_has(&m, "properties") {
                    object_put(&mut m, "properties".to_owned(), object_value(object_new()));
                    assert(entries_of(m) =~= m1.insert(
                        "properties"@,
                        Tree::Object(Map::empty()),
                    ));
                }
                (object_value(m), true)
            }
        },
    }
}

fn fix_tool(t: serde_json::Value) -> (r: (serde_json::Value, bool))
    ensures
        tree_of(r.0) == fill_tool(tree_of(t)),
        r.1 == tool_needs_fill(tree_of(t)),
{
    match take_object(t) {
        Err(t) => (t, false),
        Ok(mut m) => {
            let ghost m0 = entries_of(m);
            if object_has(&m, "function") {
                let f = object_take(&mut m, "function").unwrap();
                match take_object(f) {
                    Err(f) => {
                        object_put(&mut m, "function".to_owned(), f);
                        assert(entries_of(m) =~= m0);
                        (object_value(m), false)
                    },
                    Ok(mut fm) => {
                        let ghost f0 = entries_of(fm);
                        match object_take(&mut fm, "parameters") {
                            None => {
                                object_put(&mut m, "function".to_owned(), object_value(fm));
                                assert(entries_of(fm) =~= f0);
                                assert(entries_of(m) =~= m0);
                                (object_value(m), false)
                            },
                            Some(p) => {
                                let (p, fixed) = fix_params(p);
                                object_put(&mut fm, "parameters".to_owned(), p);
                                object_put(&mut m, "function".to_owned(), object_value(fm));
                                assert(entries_of(fm) =~= f0.insert(
                                    "parameters"@,
                                    fill_params(f0["parameters"@]),
                                ));
                                assert(entries_of(m) =~= m0.insert(
                                    "function"@,
                                    Tree::Object(f0.insert("parameters"@, fill_params(f0["parameters"@]))),
                                ));
                                (object_value(m), fixed)
                            },
                        }
                    },
                }
            } else {
                match object_take(&mut m, "parameters") {
                    None => {
                        assert(entries_of(m) =~= m0);
                        (object_value(m), false)
                    },
                    Some(p) => {
                        let (p, fixed) = fix_params(p);
                        object_put(&mut m, "parameters".to_owned(), p);
                        assert(entries_of(m) =~= m0.insert(
                            "parameters"@,
                            fill_params(m0["parameters"@]),
                        ));
                        (object_value(m), fixed)
                    },
                }
            }
        },
    }
}


/// Completes the parameter schema of every tool of a request; the count is
/// the number of schemas completed.
pub fn patch_request(doc: serde_json::Value) -> (r: (serde_json::Value, usize))
    ensures
        tree_of(r.0) == patch_request_tree(tree_of(doc)),
        r.1 == request_fix_count(tree_of(doc)),
{
    match take_object(doc) {
        Err(doc) => (doc, 0),
        Ok(mut top) => {
            let ghost m0 = entries_of(top);
            match object_take(&mut top, "tools") {
                None => {
                    assert(entries_of(top) =~= m0);
                    (object_value(top), 0)
                },
                Some(tools) => match take_array(tools) {
                    Err(tools) => {
                        object_put(&mut top, "tools".to_owned(), tools);
                        assert(entries_of(top) =~= m0);
                        (object_value(top), 0)
                    },
                    Ok(items) => {
                        let ghost orig = items@.map_values(|x: serde_json::Value| tree_of(x));
                        let mut rest = items;
                        let mut done: Vec<serde_json::Value> = Vec::new();
                        let mut count: usize = 0;
                        while rest.len() > 0
                            invariant
                                done.len() + rest.len() == orig.len(),
                                forall|i: int|
                                    0 <= i < rest.len() ==> tree_of(#[trigger] rest@[i]) == orig[done.len() + i],
                                forall|i: int|
                                    0 <= i < done.len() ==> tree_of(#[trigger] done@[i]) == fill_tool(orig[i]),
                                count == count_needing(orig.take(done.len() as int)),
                                count <= done.len(),
                            decreases rest.len(),
                        {
                            let ghost k = done.len() as int;
                            let item = rest.remove(0);
                            let (fixed, needed) = fix_tool(item);
                            done.push(fixed);
                            assert(orig.take(k + 1).drop_last() =~= orig.take(k));
                            if needed {
                                count = count + 1;
                            }
                        }
                        assert(orig.take(orig.len() as int) =~= orig);
                        let ghost fixed_items = done@.map_values(|x: serde_json::Value| tree_of(x));
                        assert(fixed_items =~= orig.map_values(|t: Tree| fill_tool(t)));
                        object_put(&mut top, "tools".to_owned(), array_value(done));
                        assert(entries_of(top) =~= m0.insert(
                            "tools"@,
                            Tree::List(orig.map_values(|t: Tree| fill_tool(t))),
                        ));
                        (object_value(top), count)
                    },
                },
            }
        },
    }
}


/// The default of `input_tokens_details`: `{"cached_tokens": 0}`.
pub open spec fn input_details_default() -> Tree {
    Tree::Object(map!["cached_tokens"@ => Tree::Number(decimal(0))])
}

/// The default of `output_tokens_details`: `{"reasoning_tokens": 0}`.
pub open spec fn output_details_default() -> Tree {
    Tree::Object(map!["reasoning_tokens"@ => Tree::Number(decimal(0))])
}

/// A usage block with both detail entries, each kept where present.
pub open spec fn fill_usage(u: Map<Seq<char>, Tree>) -> Map<Seq<char>, Tree> {
    let u1 = if u.contains_key("input_tokens_details"@) {
        u
    } else {
        u.insert("input_tokens_details"@, input_details_default())
    };
    if u1.contains_key("output_tokens_details"@) {
        u1
    } else {
        u1.insert("output_tokens_details"@, output_details_default())
    }
}

/// A usage block that lacks a detail entry.
pub open spec fn usage_needs_fill(u: Map<Seq<char>, Tree>) -> bool {
    !u.contains_key("input_tokens_details"@) || !u.contains_key("output_tokens_details"@)
}

/// The object under `key` of an object document, if there is one.
pub open spec fn object_at(doc: Tree, key: Seq<char>) -> Option<Map<Seq<char>, Tree>> {
    match doc {
        Tree::Object(m) => if m.contains_key(key) {
            match m[key] {
                Tree::Object(u) => Some(u),
                _ => None,
            }
        } else {
            None
        },
        _ => None,
    }
}

/// An object document whose object under `key` has its usage details completed.
pub open spec fn fill_usage_at(doc: Tree, key: Seq<char>) -> Tree {
    match object_at(doc, key) {
        Some(u) => Tree::Object(doc->Object_0.insert(key, Tree::Object(fill_usage(u)))),
        None => doc,
    }
}

/// A response document with its top-level `usage` completed.
pub open spec fn patch_response_tree(doc: Tree) -> Tree {
    fill_usage_at(doc, "usage"@)
}

/// Whether `patch_response_tree` inserts anything.
pub open spec fn response_needs_fix(doc: Tree) -> bool {
    match object_at(doc, "usage"@) {
        Some(u) => usage_needs_fill(u),
        None => false,
    }
}

/// A streamed event document with its `response.usage` completed.
pub open spec fn patch_event_tree(doc: Tree) -> Tree {
    match object_at(doc, "response"@) {
        Some(_) => {
            let inner = doc->Object_0["response"@];
            match object_at(inner, "usage"@) {
                Some(_) => Tree::Object(
                    doc->Object_0.insert("response"@, fill_usage_at(inner, "usage"@)),
                ),
                None => doc,
            }
        },
        None => doc,
    }
}

/// Whether `patch_event_tree` inserts anything.
pub open spec fn event_needs_fix(doc: Tree) -> bool {
    match object_at(doc, "response"@) {
        Some(_) => response_needs_fix(doc->Object_0["response"@]),
        None => false,
    }
}

fn fill_usage_map(u: &mut Object) -> (r: bool)
    ensures
        entries_of(*final(u)) == fill_usage(entries_of(*old(u))),
        r == usage_needs_fill(entries_of(*old(u))),
{
    proof {
        lemma_key_names();
    }
    let ghost u0 = entries_of(*u);
    let mut fixed = false;
    if !object_has(u, "input_tokens_details") {
        let mut d = object_new();
        object_put(&mut d, "cached_tokens".to_owned(), number_value(0));
        assert(entries_of(d) =~= map!["cached_tokens"@ => Tree::Number(decimal(0))]);
        object_put(u, "input_tokens_details".to_owned(), object_value(d));
        fixed = true;
    }
    if !object_has(u, "output_tokens_details") {
        let mut d = object_new();
        object_put(&mut d, "reasoning_tokens".to_owned(), number_value(0));
        assert(entries_of(d) =~= map!["reasoning_tokens"@ => Tree::Number(decimal(0))]);
        object_put(u, "output_tokens_details".to_owned(), object_value(d));
        fixed = true;
    }
    fixed
}

fn fix_usage_at(doc: serde_json::Value, key: &str) -> (r: (serde_json::Value, bool))
    ensures
        tree_of(r.0) == fill_usage_at(tree_of(doc), key@),
        r.1 == (match object_at(tree_of(doc), key@) {
            Some(u) => usage_needs_fill(u),
            None => false,
        }),
{
    match take_object(doc) {
        Err(doc) => (doc, false),
        Ok(mut top) => {
            let ghost m0 = entries_of(top);
            match object_take(&mut top, key) {
                None => {
                    assert(entries_of(top) =~= m0);
                    (object_value(top), false)
                },
                Some(inner) => match take_object(inner) {
                    Err(inner) => {
                        object_put(&mut top, key.to_owned(), inner);
                        assert(entries_of(top) =~= m0);
                        (object_value(top), false)
                    },
                    Ok(mut u) => {
                        let ghost u0 = entries_of(u);
                        let fixed = fill_usage_map(&mut u);
                        object_put(&mut top, key.to_owned(), object_value(u));
                        assert(entries_of(top) =~= m0.insert(
                            key@,
                            Tree::Object(fill_usage(u0)),
                        ));
                        (object_value(top), fixed)
                    },
                },
            }
        },
    }
}

/// Completes the detail entries of the top-level `usage` object of a
/// response; the flag says whether anything was inserted.
pub fn patch_response(doc: serde_json::Value) -> (r: (serde_json::Value, bool))
    ensures
        tree_of(r.0) == patch_response_tree(tree_of(doc)),
        r.1 == response_needs_fix(tree_of(doc)),
{
    fix_usage_at(doc, "usage")
}

/// Completes the detail entries of `response.usage` in one streamed event;
/// the flag says whether anything was inserted.
pub fn patch_event(doc: serde_json::Value) -> (r: (serde_json::Value, bool))
    ensures
        tree_of(r.0) == patch_event_tree(tree_of(doc)),
        r.1 == event_needs_fix(tree_of(doc)),
{
    match take_object(doc) {
        Err(doc) => (doc, false),
        Ok(mut top) => {
            let ghost m0 = entries_of(top);
            match object_take(&mut top, "response") {
                None => {
                    assert(entries_of(top) =~= m0);
                    (object_value(top), false)
                },
                Some(inner) => {
                    let (inner, fixed) = fix_usage_at(inner, "usage");
                    object_put(&mut top, "response".to_owned(), inner);
                    proof {
                        let t = m0["response"@];
                        if object_at(t, "usage"@) is Some {
                            assert(entries_of(top) =~= m0.insert(
                                "response"@,
                                fill_usage_at(t, "usage"@),
                            ));
                        } else {
                            assert(entries_of(top) =~= m0);
                        }
                    }
                    (object_value(top), fixed)
                },
            }
        },
    }
}


/// Why a body could not be rewritten.
#[derive(Debug, Clone, Copy, PartialEq, Eq, Structural)]
pub enum FixError {
    /// The bytes are not UTF-8 text.
    Decode,
    /// The bytes are not one JSON document.
    Parse,
}

/// The bytes of the document read from `body`, rewritten by `patch` and
/// written back out; a parse error where `body` is no JSON document.
pub open spec fn rewrite_json(body: Seq<u8>, patch: spec_fn(Tree) -> Tree) -> Result<Seq<u8>, FixError> {
    match parse_json(body) {
        None => Err(FixError::Parse),
        Some(t) => Ok(json_bytes(patch(t))),
    }
}

/// What `fix_request_body` makes of a body.
pub open spec fn request_rewrite(body: Seq<u8>) -> Result<Seq<u8>, FixError> {
    rewrite_json(body, |t: Tree| patch_request_tree(t))
}

/// What `fix_response_body` makes of a body.
pub open spec fn response_rewrite(body: Seq<u8>) -> Result<Seq<u8>, FixError> {
    rewrite_json(body, |t: Tree| patch_response_tree(t))
}

/// Parses a request body, completes its tool schemas and writes it back out;
/// it succeeds exactly on JSON documents.
pub fn fix_request_body(body: &[u8]) -> (r: Result<Vec<u8>, FixError>)
    ensures
        r is Ok <==> parse_json(body@) is Some,
        match r {
            Ok(out) => request_rewrite(body@) == Ok::<Seq<u8>, FixError>(out@),
            Err(e) => request_rewrite(body@) == Err::<Seq<u8>, FixError>(e),
        },
{
    match decode_value(body) {
        Err(_) => Err(FixError::Parse),
        Ok(doc) => {
            let (doc, _count) = patch_request(doc);
            Ok(encode_value(&doc).unwrap())
        },
    }
}

/// Parses a response body, completes its usage details and writes it back
/// out; it succeeds exactly on JSON documents.
pub fn fix_response_body(body: &[u8]) -> (r: Result<Vec<u8>, FixError>)
    ensures
        r is Ok <==> parse_json(body@) is Some,
        match r {
            Ok(out) => response_rewrite(body@) == Ok::<Seq<u8>, FixError>(out@),
            Err(e) => response_rewrite(body@) == Err::<Seq<u8>, FixError>(e),
        },
{
    match decode_value(body) {
        Err(_) => Err(FixError::Parse),
        Ok(doc) => {
            let (doc, _fixed) = patch_response(doc);
            Ok(encode_value(&doc).unwrap())
        },
    }
}


proof fn lemma_key_names()
    ensures
        "type"@ != "properties"@,
        "function"@ != "parameters"@,
        "input_tokens_details"@ != "output_tokens_details"@,
{
    reveal_strlit("type");
    reveal_strlit("properties");
    reveal_strlit("function");
    reveal_strlit("parameters");
    reveal_strlit("input_tokens_details");
    reveal_strlit("output_tokens_details");
    assert("type"@.len() != "properties"@.len());
    assert("function"@[0] != "parameters"@[0]);
    assert("input_tokens_details"@[0] != "output_tokens_details"@[0]);
}

proof fn lemma_fill_tool_params(t: Tree)
    ensures
        tool_params(fill_tool(t)) == (match tool_params(t) {
            Some(p) => Some(fill_params(p)),
            None => None,
        }),
{
    lemma_key_names();
}

proof fn lemma_fill_params_idempotent(p: Tree)
    ensures
        fill_params(fill_params(p)) == fill_params(p),
        !params_need_fill(fill_params(p)),
{
    lemma_key_names();
}

proof fn lemma_fill_tool_unchanged(t: Tree)
    requires
        !tool_needs_fill(t),
    ensures
        fill_tool(t) == t,
{
    match t {
        Tree::Object(m) => {
            if m.contains_key("function"@) {
                match m["function"@] {
                    Tree::Object(f) => {
                        if f.contains_key("parameters"@) {
                            assert(f.insert("parameters"@, f["parameters"@]) =~= f);
                            assert(m.insert("function"@, Tree::Object(f)) =~= m);
                        }
                    },
                    _ => {},
                }
            } else if m.contains_key("parameters"@) {
                assert(m.insert("parameters"@, m["parameters"@]) =~= m);
            }
        },
        _ => {},
    }
}

proof fn lemma_fill_tool_idempotent(t: Tree)
    ensures
        fill_tool(fill_tool(t)) == fill_tool(t),
{
    lemma_fill_tool_params(t);
    match tool_params(t) {
        Some(p) => lemma_fill_params_idempotent(p),
        None => {},
    }
    lemma_fill_tool_unchanged(fill_tool(t));
}

/// After `patch_request_tree`, a tool whose parameter schema was an object
/// without `type` has `type: "object"` and a `properties` entry: the one it
/// had, or an empty object. The list of tools keeps its length.
pub proof fn lemma_request_completes_schemas(doc: Tree, i: int)
    requires
        request_tools(doc) is Some,
        0 <= i < request_tools(doc)->0.len(),
        tool_params(request_tools(doc)->0[i]) is Some,
        params_need_fill(tool_params(request_tools(doc)->0[i])->0),
    ensures
        ({
            let s = request_tools(doc)->0;
            let m = tool_params(s[i])->0->Object_0;
            let s2 = request_tools(patch_request_tree(doc));
            &&& s2 is Some
            &&& s2->0.len() == s.len()
            &&& tool_params(s2->0[i]) is Some
            &&& tool_params(s2->0[i])->0 is Object
            &&& tool_params(s2->0[i])->0->Object_0 == m.insert("type"@, Tree::Text("object"@)).insert(
                "properties"@,
                if m.contains_key("properties"@) {
                    m["properties"@]
                } else {
                    Tree::Object(Map::empty())
                },
            )
        }),
{
    lemma_key_names();
    let s = request_tools(doc)->0;
    lemma_fill_tool_params(s[i]);
    let m = tool_params(s[i])->0->Object_0;
    if m.contains_key("properties"@) {
        assert(m.insert("type"@, Tree::Text("object"@)).insert("properties"@, m["properties"@])
            =~= m.insert("type"@, Tree::Text("object"@)));
    }
}

/// A tool whose parameter schema already has a `type` is left as it is by
/// `patch_request_tree`.
pub proof fn lemma_request_keeps_typed_schemas(doc: Tree, i: int)
    requires
        request_tools(doc) is Some,
        0 <= i < request_tools(doc)->0.len(),
        tool_params(request_tools(doc)->0[i]) is Some,
        tool_params(request_tools(doc)->0[i])->0 is Object,
        tool_params(request_tools(doc)->0[i])->0->Object_0.contains_key("type"@),
    ensures
        request_tools(patch_request_tree(doc)) is Some,
        request_tools(patch_request_tree(doc))->0[i] == request_tools(doc)->0[i],
{
    lemma_fill_tool_unchanged(request_tools(doc)->0[i]);
}

/// After `patch_response_tree`, an object-typed `usage` has both detail
/// entries: those it had are kept, the missing ones get their defaults, and
/// no other entry changes.
pub proof fn lemma_response_completes_usage(doc: Tree)
    requires
        object_at(doc, "usage"@) is Some,
    ensures
        ({
            let u = object_at(doc, "usage"@)->0;
            let u2 = object_at(patch_response_tree(doc), "usage"@);
            &&& u2 is Some
            &&& u2->0["input_tokens_details"@] == if u.contains_key("input_tokens_details"@) {
                u["input_tokens_details"@]
            } else {
                input_details_default()
            }
            &&& u2->0["output_tokens_details"@] == if u.contains_key("output_tokens_details"@) {
                u["output_tokens_details"@]
            } else {
                output_details_default()
            }
            &&& u2->0.contains_key("input_tokens_details"@)
            &&& u2->0.contains_key("output_tokens_details"@)
            &&& forall|k: Seq<char>| #[trigger] u.contains_key(k) ==> u2->0.contains_key(k) && u2->0[k] == u[k]
        }),
{
    lemma_key_names();
}

proof fn lemma_fill_usage_idempotent(u: Map<Seq<char>, Tree>)
    ensures
        fill_usage(fill_usage(u)) == fill_usage(u),
{
    lemma_key_names();
}

/// Patching a request twice gives what patching it once gives.
pub proof fn lemma_patch_request_idempotent(doc: Tree)
    ensures
        patch_request_tree(patch_request_tree(doc)) == patch_request_tree(doc),
{
    match request_tools(doc) {
        Some(s) => {
            let s1 = s.map_values(|t: Tree| fill_tool(t));
            assert forall|i: int| 0 <= i < s1.len() implies fill_tool(#[trigger] s1[i]) == s1[i] by {
                lemma_fill_tool_idempotent(s[i]);
            }
            assert(s1.map_values(|t: Tree| fill_tool(t)) =~= s1);
            let m1 = doc->Object_0.insert("tools"@, Tree::List(s1));
            assert(m1.insert("tools"@, Tree::List(s1)) =~= m1);
        },
        None => {},
    }
}

/// Patching a response twice gives what patching it once gives.
pub proof fn lemma_patch_response_idempotent(doc: Tree)
    ensures
        patch_response_tree(patch_response_tree(doc)) == patch_response_tree(doc),
{
    match object_at(doc, "usage"@) {
        Some(u) => {
            lemma_fill_usage_idempotent(u);
            let m1 = doc->Object_0.insert("usage"@, Tree::Object(fill_usage(u)));
            assert(m1.insert("usage"@, Tree::Object(fill_usage(u))) =~= m1);
        },
        None => {},
    }
}

} // verus!
