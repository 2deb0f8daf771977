//! The JSON form of session settings: how they are written and how they are read.

use vstd::prelude::*;
use crate::common::collections::{lemma_pairs_map_push, pairs_map, StringMap};
use crate::common::json::{
    insert_string, insert_u32, insert_value, json_of, jsons_of, object_insert, optional_string,
    optional_u32, optional_value, read_optional_string, read_optional_u32, read_optional_value,
    read_string, required_string, value_array, value_as_array, value_as_str, value_is_object,
    value_keys, value_member, value_object, value_string, with_json, with_string, with_u32, Json,
};
use crate::evi::models::{
    strings_view, tools_view, AudioConfig, AudioEncoding, AudioFormat, BuiltinTool,
    BuiltinToolView, Context, ContextType, ContextView, SessionSettings, SessionSettingsView,
};

verus! {

/// The name of an optional encoding.
pub open spec fn encoding_name(e: Option<AudioEncoding>) -> Option<Seq<char>> {
    match e {
        Some(e) => Some(e.wire_name()),
        None => None,
    }
}

/// The name of an optional format.
pub open spec fn format_name(f: Option<AudioFormat>) -> Option<Seq<char>> {
    match f {
        Some(f) => Some(f.wire_name()),
        None => None,
    }
}

/// The JSON form of an audio configuration: an object with a member for each
/// setting that is present.
pub open spec fn encode_audio(a: AudioConfig) -> Json {
    let m = Map::<Seq<char>, Json>::empty();
    let m = with_string(m, "input_encoding"@, encoding_name(a.input_encoding));
    let m = with_u32(m, "input_sample_rate"@, a.input_sample_rate);
    let m = with_string(m, "output_encoding"@, encoding_name(a.output_encoding));
    let m = with_u32(m, "output_sample_rate"@, a.output_sample_rate);
    let m = with_string(m, "output_format"@, format_name(a.output_format));
    Json::Object(m)
}

/// The JSON form of a context: an object with its `type` and its `text`.
pub open spec fn encode_context(c: ContextView) -> Json {
    Json::Object(
        Map::<Seq<char>, Json>::empty().insert(
            "type"@,
            Json::String(c.context_type.wire_name()),
        ).insert("text"@, Json::String(c.text)),
    )
}

/// The JSON form of variables: an object with a string member for each.
pub open spec fn encode_variables(m: Map<Seq<char>, Seq<char>>) -> Json {
    Json::Object(m.map_values(|s: Seq<char>| Json::String(s)))
}

/// The JSON form of a list of strings: an array of them.
pub open spec fn encode_strings(s: Seq<Seq<char>>) -> Json {
    Json::Array(s.map_values(|x: Seq<char>| Json::String(x)))
}

/// The JSON form of a built-in tool: an object with its `name`, and with its
/// `config` where one is given.
pub open spec fn encode_tool(t: BuiltinToolView) -> Json {
    Json::Object(
        with_json(
            Map::<Seq<char>, Json>::empty().insert("name"@, Json::String(t.name)),
            "config"@,
            t.config,
        ),
    )
}

/// The JSON form of a list of built-in tools: an array of their forms.
pub open spec fn encode_tools(s: Seq<BuiltinToolView>) -> Json {
    Json::Array(s.map_values(|t: BuiltinToolView| encode_tool(t)))
}

/// What `f` makes of an optional value.
pub open spec fn opt_map<A, B>(o: Option<A>, f: spec_fn(A) -> B) -> Option<B> {
    match o {
        Some(a) => Some(f(a)),
        None => None,
    }
}

/// The JSON form of session settings: an object with a member for each setting
/// that is present.
pub open spec fn encode_settings(s: SessionSettingsView) -> Json {
    let m = Map::<Seq<char>, Json>::empty();
    let m = with_json(m, "audio"@, opt_map(s.audio, |a: AudioConfig| encode_audio(a)));
    let m = with_string(m, "system_prompt"@, s.system_prompt);
    let m = with_json(m, "context"@, opt_map(s.context, |c: ContextView| encode_context(c)));
    let m = with_json(
        m,
        "variables"@,
        opt_map(s.variables, |v: Map<Seq<char>, Seq<char>>| encode_variables(v)),
    );
    let m = with_json(m, "tools"@, opt_map(s.tools, |t: Seq<Seq<char>>| encode_strings(t)));
    let m = with_json(
        m,
        "builtin_tools"@,
        opt_map(s.builtin_tools, |t: Seq<BuiltinToolView>| encode_tools(t)),
    );
    Json::Object(m)
}

/// What a member that names an encoding holds; `None` where the member is no
/// string or names no encoding.
pub open spec fn decode_encoding(j: Json, key: Seq<char>) -> Option<Option<AudioEncoding>> {
    match optional_string(j, key) {
        None => None,
        Some(None) => Some(None),
        Some(Some(name)) => match AudioEncoding::named(name) {
            Some(e) => Some(Some(e)),
            None => None,
        },
    }
}

/// What a member that names a format holds; `None` where the member is no
/// string or names no format.
pub open spec fn decode_format(j: Json, key: Seq<char>) -> Option<Option<AudioFormat>> {
    match optional_string(j, key) {
        None => None,
        Some(None) => Some(None),
        Some(Some(name)) => match AudioFormat::named(name) {
            Some(f) => Some(Some(f)),
            None => None,
        },
    }
}

/// The audio configuration that a document stands for; `None` where it is no
/// object or one of its members is not of its kind.
pub open spec fn decode_audio(j: Json) -> Option<AudioConfig> {
    if !(j is Object) {
        None
    } else {
        match (
            decode_encoding(j, "input_encoding"@),
            optional_u32(j, "input_sample_rate"@),
            decode_encoding(j, "output_encoding"@),
            optional_u32(j, "output_sample_rate"@),
            decode_format(j, "output_format"@),
        ) {
            (Some(ie), Some(ir), Some(oe), Some(or), Some(of)) => Some(
                AudioConfig {
                    input_encoding: ie,
                    input_sample_rate: ir,
                    output_encoding: oe,
                    output_sample_rate: or,
                    output_format: of,
                },
            ),
            _ => None,
        }
    }
}

/// The context that a document stands for; `None` where it lacks a `type` that
/// names a context type or a `text` that is a string.
pub open spec fn decode_context(j: Json) -> Option<ContextView> {
    match (required_string(j, "type"@), required_string(j, "text"@)) {
        (Some(t), Some(text)) => match ContextType::named(t) {
            Some(context_type) => Some(ContextView { context_type, text }),
            None => None,
        },
        _ => None,
    }
}

/// The variables that a document stands for; `None` where it is no object or
/// one of its members is no string.
pub open spec fn decode_variables(j: Json) -> Option<Map<Seq<char>, Seq<char>>> {
    match j {
        Json::Object(m) => if forall|k: Seq<char>| m.contains_key(k) ==> (#[trigger] m[k]) is String {
            Some(m.map_values(|v: Json| v->String_0))
        } else {
            None
        },
        _ => None,
    }
}

/// The strings that a document stands for; `None` where it is no array or one
/// of its items is no string.
pub open spec fn decode_strings(j: Json) -> Option<Seq<Seq<char>>> {
    match j {
        Json::Array(items) => if forall|i: int| 0 <= i < items.len() ==> (#[trigger] items[i]) is String {
            Some(items.map_values(|v: Json| v->String_0))
        } else {
            None
        },
        _ => None,
    }
}

/// The built-in tool that a document stands for; `None` where it lacks a `name`
/// that is a string.
pub open spec fn decode_tool(j: Json) -> Option<BuiltinToolView> {
    match required_string(j, "name"@) {
        Some(name) => Some(BuiltinToolView { name, config: optional_value(j, "config"@) }),
        None => None,
    }
}

/// The built-in tools that a document stands for; `None` where it is no array
/// or one of its items stands for no tool.
pub open spec fn decode_tools(j: Json) -> Option<Seq<BuiltinToolView>> {
    match j {
        Json::Array(items) => if forall|i: int| 0 <= i < items.len() ==> decode_tool(#[trigger] items[i]) is Some {
            Some(items.map_values(|v: Json| decode_tool(v)->0))
        } else {
            None
        },
        _ => None,
    }
}

/// What `f` reads from a member that may be missing or `null`: `None` where the
/// member is there and `f` refuses it.
pub open spec fn optional_with<T>(j: Json, key: Seq<char>, f: spec_fn(Json) -> Option<T>) -> Option<
    Option<T>,
> {
    match optional_value(j, key) {
        None => Some(None),
        Some(x) => match f(x) {
            Some(t) => Some(Some(t)),
            None => None,
        },
    }
}

/// The session settings that a document stands for; `None` where it is no
/// object or one of its members is not of its kind.
pub open spec fn decode_settings(j: Json) -> Option<SessionSettingsView> {
    if !(j is Object) {
        None
    } else {
        match (
            optional_with(j, "audio"@, |x: Json| decode_audio(x)),
            optional_string(j, "system_prompt"@),
            optional_with(j, "context"@, |x: Json| decode_context(x)),
            optional_with(j, "variables"@, |x: Json| decode_variables(x)),
            optional_with(j, "tools"@, |x: Json| decode_strings(x)),
            optional_with(j, "builtin_tools"@, |x: Json| decode_tools(x)),
        ) {
            (
                Some(audio),
                Some(system_prompt),
                Some(context),
                Some(variables),
                Some(tools),
                Some(builtin_tools),
            ) => Some(
                SessionSettingsView {
                    audio,
                    system_prompt,
                    context,
                    variables,
                    tools,
                    builtin_tools,
                },
            ),
            _ => None,
        }
    }
}

impl AudioConfig {
    /// The JSON form of the configuration.
    pub fn to_json(&self) -> (v: serde_json::Value)
        ensures
            json_of(v) == encode_audio(*self),
    {
        let mut v = value_object();
        match self.input_encoding {
            Some(e) => {
                object_insert(&mut v, "input_encoding", value_string(e.as_str()));
            },
            None => {},
        }
        insert_u32(&mut v, "input_sample_rate", self.input_sample_rate);
        match self.output_encoding {
            Some(e) => {
                object_insert(&mut v, "output_encoding", value_string(e.as_str()));
            },
            None => {},
        }
        insert_u32(&mut v, "output_sample_rate", self.output_sample_rate);
        match self.output_format {
            Some(f) => {
                object_insert(&mut v, "output_format", value_string(f.as_str()));
            },
            None => {},
        }
        v
    }

    /// Reads a configuration from its JSON form.
    pub fn from_json(v: &serde_json::Value) -> (r: Option<AudioConfig>)
        ensures
            r == decode_audio(json_of(*v)),
    {
        if !value_is_object(v) {
            return None;
        }
        let input_encoding = match read_optional_string(v, "input_encoding") {
            None => {
                return None;
            },
            Some(None) => None,
            Some(Some(name)) => match AudioEncoding::from_name(name.as_str()) {
                Some(e) => Some(e),
                None => {
                    return None;
                },
            },
        };
        let input_sample_rate = match read_optional_u32(v, "input_sample_rate") {
            Some(n) => n,
            None => {
                return None;
            },
        };
        let output_encoding = match read_optional_string(v, "output_encoding") {
            None => {
                return None;
            },
            Some(None) => None,
            Some(Some(name)) => match AudioEncoding::from_name(name.as_str()) {
                Some(e) => Some(e),
                None => {
                    return None;
                },
            },
        };
        let output_sample_rate = match read_optional_u32(v, "output_sample_rate") {
            Some(n) => n,
            None => {
                return None;
            },
        };
        let output_format = match read_optional_string(v, "output_format") {
            None => {
                return None;
            },
            Some(None) => None,
            Some(Some(name)) => match AudioFormat::from_name(name.as_str()) {
                Some(f) => Some(f),
                None => {
                    return None;
                },
            },
        };
        Some(
            AudioConfig {
                input_encoding,
                input_sample_rate,
                output_encoding,
                output_sample_rate,
                output_format,
            },
        )
    }
}

impl Context {
    /// The JSON form of the context.
    pub fn to_json(&self) -> (v: serde_json::Value)
        ensures
            json_of(v) == encode_context(self@),
    {
        let mut v = value_object();
        object_insert(&mut v, "type", value_string(self.context_type.as_str()));
        object_insert(&mut v, "text", value_string(self.text.as_str()));
        v
    }

    /// Reads a context from its JSON form.
    pub fn from_json(v: &serde_json::Value) -> (r: Option<Context>)
        ensures
            opt_map(r, |c: Context| c@) == decode_context(json_of(*v)),
    {
        let t = read_string(v, "type");
        let text = read_string(v, "text");
        match (t, text) {
            (Some(t), Some(text)) => match ContextType::from_name(t.as_str()) {
                Some(context_type) => Some(Context { context_type, text }),
                None => None,
            },
            _ => None,
        }
    }
}

impl BuiltinTool {
    /// The JSON form of the tool.
    pub fn to_json(&self) -> (v: serde_json::Value)
        ensures
            json_of(v) == encode_tool(self@),
    {
        let mut v = value_object();
        object_insert(&mut v, "name", value_string(self.name.as_str()));
        insert_value(&mut v, "config", self.config.clone());
        v
    }

    /// Reads a tool from its JSON form.
    pub fn from_json(v: &serde_json::Value) -> (r: Option<BuiltinTool>)
        ensures
            opt_map(r, |t: BuiltinTool| t@) == decode_tool(json_of(*v)),
    {
        match read_string(v, "name") {
            Some(name) => Some(BuiltinTool { name, config: read_optional_value(v, "config") }),
            None => None,
        }
    }
}

/// The JSON form of a list of strings.
pub fn strings_to_json(items: &Vec<String>) -> (v: serde_json::Value)
    ensures
        json_of(v) == encode_strings(strings_view(items@)),
{
    let mut out: Vec<serde_json::Value> = Vec::new();
    let mut i: usize = 0;
    while i < items.len()
        invariant
            i <= items.len(),
            out.len() == i,
            forall|j: int| 0 <= j < i ==> json_of(#[trigger] out[j]) == Json::String(items[j]@),
        decreases items.len() - i,
    {
        out.push(value_string(items[i].as_str()));
        i += 1;
    }
    let v = value_array(out);
    assert(jsons_of(out@) =~= strings_view(items@).map_values(|x: Seq<char>| Json::String(x)));
    v
}

/// Reads a list of strings from its JSON form.
pub fn strings_from_json(v: &serde_json::Value) -> (r: Option<Vec<String>>)
    ensures
        opt_map(r, |s: Vec<String>| strings_view(s@)) == decode_strings(json_of(*v)),
{
    match value_as_array(v) {
        None => None,
        Some(items) => {
            let ghost js = jsons_of(items@);
            let mut out: Vec<String> = Vec::new();
            let mut i: usize = 0;
            while i < items.len()
                invariant
                    i <= items.len(),
                    js == jsons_of(items@),
                    json_of(*v) == Json::Array(js),
                    out.len() == i,
                    forall|j: int| 0 <= j < i ==> (#[trigger] js[j]) == Json::String(out[j]@),
                decreases items.len() - i,
            {
                match value_as_str(&items[i]) {
                    Some(s) => {
                        assert(js[i as int] == json_of(items[i as int]));
                        out.push(String::from_str(s));
                    },
                    None => {
                        assert(js[i as int] == json_of(items[i as int]));
                        assert(!(js[i as int] is String));
                        return None;
                    },
                }
                i += 1;
            }
            assert(strings_view(out@) =~= js.map_values(|v: Json| v->String_0));
            Some(out)
        },
    }
}

/// The JSON form of a list of built-in tools.
pub fn tools_to_json(items: &Vec<BuiltinTool>) -> (v: serde_json::Value)
    ensures
        json_of(v) == encode_tools(tools_view(items@)),
{
    let mut out: Vec<serde_json::Value> = Vec::new();
    let mut i: usize = 0;
    while i < items.len()
        invariant
            i <= items.len(),
            out.len() == i,
            forall|j: int| 0 <= j < i ==> json_of(#[trigger] out[j]) == encode_tool(items[j]@),
        decreases items.len() - i,
    {
        out.push(items[i].to_json());
        i += 1;
    }
    let v = value_array(out);
    assert(jsons_of(out@) =~= tools_view(items@).map_values(|t: BuiltinToolView| encode_tool(t)));
    v
}

/// Reads a list of built-in tools from its JSON form.
pub fn tools_from_json(v: &serde_json::Value) -> (r: Option<Vec<BuiltinTool>>)
    ensures
        opt_map(r, |s: Vec<BuiltinTool>| tools_view(s@)) == decode_tools(json_of(*v)),
{
    match value_as_array(v) {
        None => None,
        Some(items) => {
            let ghost js = jsons_of(items@);
            let mut out: Vec<BuiltinTool> = Vec::new();
            let mut i: usize = 0;
            while i < items.len()
                invariant
                    i <= items.len(),
                    js == jsons_of(items@),
                    json_of(*v) == Json::Array(js),
                    out.len() == i,
                    forall|j: int| 0 <= j < i ==> decode_tool(#[trigger] js[j]) == Some(out[j]@),
                decreases items.len() - i,
            {
                assert(js[i as int] == json_of(items[i as int]));
                match BuiltinTool::from_json(&items[i]) {
                    Some(t) => {
                        out.push(t);
                    },
                    None => {
                        assert(decode_tool(js[i as int]) is None);
                        return None;
                    },
                }
                i += 1;
            }
            assert(tools_view(out@) =~= js.map_values(|v: Json| decode_tool(v)->0));
            Some(out)
        },
    }
}

/// The JSON form of variables.
pub fn variables_to_json(variables: &StringMap) -> (v: serde_json::Value)
    ensures
        json_of(v) == encode_variables(variables@),
{
    let pairs = variables.to_vec();
    let ghost all = variables.pairs();
    let mut v = value_object();
    let mut i: usize = 0;
    assert(all.take(0) =~= Seq::empty());
    assert(Map::<Seq<char>, Json>::empty() =~= pairs_map(all.take(0)).map_values(
        |s: Seq<char>| Json::String(s),
    ));
    while i < pairs.len()
        invariant
            i <= pairs.len(),
            pairs.len() == all.len(),
            all == crate::common::collections::pairs_view(pairs@),
            json_of(v) == Json::Object(
                pairs_map(all.take(i as int)).map_values(|s: Seq<char>| Json::String(s)),
            ),
        decreases pairs.len() - i,
    {
        let ghost t = all.take(i as int);
        let ghost k = pairs[i as int].0@;
        let ghost x = pairs[i as int].1@;
        object_insert(&mut v, pairs[i].0.as_str(), value_string(pairs[i].1.as_str()));
        proof {
            assert(all[i as int] == (k, x));
            assert(all.take(i as int + 1) =~= t.push((k, x)));
            lemma_pairs_map_push(t, k, x);
            assert(pairs_map(t).map_values(|s: Seq<char>| Json::String(s)).insert(
                k,
                Json::String(x),
            ) =~= pairs_map(t).insert(k, x).map_values(|s: Seq<char>| Json::String(s)));
        }
        i += 1;
    }
    assert(all.take(i as int) =~= all);
    v
}

/// Reads variables from their JSON form.
pub fn variables_from_json(v: &serde_json::Value) -> (r: Option<StringMap>)
    ensures
        opt_map(r, |m: StringMap| m@) == decode_variables(json_of(*v)),
{
    match value_keys(v) {
        None => None,
        Some(keys) => {
            let ghost m = json_of(*v)->Object_0;
            let mut out = StringMap::new();
            let mut i: usize = 0;
            while i < keys.len()
                invariant
                    i <= keys.len(),
                    json_of(*v) == Json::Object(m),
                    forall|k: Seq<char>|
                        m.contains_key(k) <==> exists|j: int|
                            0 <= j < keys.len() && (#[trigger] keys[j])@ == k,
                    forall|k: Seq<char>|
                        out@.contains_key(k) <==> exists|j: int|
                            0 <= j < i && (#[trigger] keys[j])@ == k,
                    forall|k: Seq<char>|
                        out@.contains_key(k) ==> m.contains_key(k) && m[k] == Json::String(
                            #[trigger] out@[k],
                        ),
                decreases keys.len() - i,
            {
                let key = keys[i].clone();
                assert(m.contains_key(key@)) by {
                    assert(keys[i as int]@ == key@);
                }
                match value_member(v, key.as_str()) {
                    Some(item) => match value_as_str(item) {
                        Some(s) => {
                            let ghost before = out@;
                            out.insert(key, String::from_str(s));
                            assert forall|k: Seq<char>|
                                out@.contains_key(k) <==> exists|j: int|
                                    0 <= j < i + 1 && (#[trigger] keys[j])@ == k by {
                                if out@.contains_key(k) {
                                    if k == keys[i as int]@ {
                                        assert(keys[i as int]@ == k);
                                    } else {
                                        assert(before.contains_key(k));
                                        let j = choose|j: int|
                                            0 <= j < i && (#[trigger] keys[j])@ == k;
                                        assert(keys[j]@ == k);
                                    }
                                }
                                if exists|j: int| 0 <= j < i + 1 && (#[trigger] keys[j])@ == k {
                                    let j = choose|j: int|
                                        0 <= j < i + 1 && (#[trigger] keys[j])@ == k;
                                    if j < i {
                                        assert(before.contains_key(k));
                                    }
                                }
                            }
                        },
                        None => {
                            assert(!(m[key@] is String));
                            return None;
                        },
                    },
                    None => {
                        return None;
                    },
                }
                i += 1;
            }
            assert forall|k: Seq<char>| m.contains_key(k) implies (#[trigger] m[k]) is String by {
                let j = choose|j: int| 0 <= j < keys.len() && (#[trigger] keys[j])@ == k;
                assert(keys[j]@ == k);
                assert(out@.contains_key(k));
                assert(m[k] == Json::String(out@[k]));
            }
            assert(out@ =~= m.map_values(|x: Json| x->String_0)) by {
                assert forall|k: Seq<char>| m.contains_key(k) implies out@.contains_key(k) by {
                    let j = choose|j: int| 0 <= j < keys.len() && (#[trigger] keys[j])@ == k;
                    assert(keys[j]@ == k);
                }
            }
            Some(out)
        },
    }
}

impl SessionSettings {
    /// The JSON form of the settings.
    pub fn to_json(&self) -> (v: serde_json::Value)
        ensures
            json_of(v) == encode_settings(self@),
    {
        let mut v = value_object();
        match &self.audio {
            Some(a) => {
                object_insert(&mut v, "audio", a.to_json());
            },
            None => {},
        }
        insert_string(&mut v, "system_prompt", &self.system_prompt);
        match &self.context {
            Some(c) => {
                object_insert(&mut v, "context", c.to_json());
            },
            None => {},
        }
        match &self.variables {
            Some(m) => {
                object_insert(&mut v, "variables", variables_to_json(m));
            },
            None => {},
        }
        match &self.tools {
            Some(t) => {
                object_insert(&mut v, "tools", strings_to_json(t));
            },
            None => {},
        }
        match &self.builtin_tools {
            Some(t) => {
                object_insert(&mut v, "builtin_tools", tools_to_json(t));
            },
            None => {},
        }
        v
    }

    /// Reads settings from their JSON form.
    pub fn from_json(v: &serde_json::Value) -> (r: Option<SessionSettings>)
        ensures
            opt_map(r, |s: SessionSettings| s@) == decode_settings(json_of(*v)),
    {
        if !value_is_object(v) {
            return None;
        }
        let audio = match read_optional_value(v, "audio") {
            None => None,
            Some(x) => match AudioConfig::from_json(&x) {
                Some(a) => Some(a),
                None => {
                    return None;
                },
            },
        };
        let system_prompt = match read_optional_string(v, "system_prompt") {
            Some(s) => s,
            None => {
                return None;
            },
        };
        let context = match read_optional_value(v, "context") {
            None => None,
            Some(x) => match Context::from_json(&x) {
                Some(c) => Some(c),
                None => {
                    return None;
                },
            },
        };
        let variables = match read_optional_value(v, "variables") {
            None => None,
            Some(x) => match variables_from_json(&x) {
                Some(m) => Some(m),
                None => {
                    return None;
                },
            },
        };
        let tools = match read_optional_value(v, "tools") {
            None => None,
            Some(x) => match strings_from_json(&x) {
                Some(t) => Some(t),
                None => {
                    return None;
                },
            },
        };
        let builtin_tools = match read_optional_value(v, "builtin_tools") {
            None => None,
            Some(x) => match tools_from_json(&x) {
                Some(t) => Some(t),
                None => {
                    return None;
                },
            },
        };
        Some(SessionSettings { audio, system_prompt, context, variables, tools, builtin_tools })
    }
}

} // verus!

verus! {

/// Each encoding is the one that its name stands for.
pub proof fn lemma_encoding_names(e: AudioEncoding)
    ensures
        AudioEncoding::named(e.wire_name()) == Some(e),
{
    reveal_strlit("linear16");
    reveal_strlit("mulaw");
    assert("linear16"@.len() == 8);
    assert("mulaw"@.len() == 5);
}

/// Each format is the one that its name stands for.
pub proof fn lemma_format_names(f: AudioFormat)
    ensures
        AudioFormat::named(f.wire_name()) == Some(f),
{
    reveal_strlit("raw");
    reveal_strlit("wav");
    reveal_strlit("mp3");
    assert("raw"@[0] == 'r');
    assert("wav"@[0] == 'w');
    assert("mp3"@[0] == 'm');
}

/// Each context type is the one that its name stands for.
pub proof fn lemma_context_type_names(t: ContextType)
    ensures
        ContextType::named(t.wire_name()) == Some(t),
{
    reveal_strlit("persistent");
    reveal_strlit("temporary");
    assert("persistent"@.len() == 10);
    assert("temporary"@.len() == 9);
}

/// Reading the JSON form of an audio configuration gives the configuration back.
pub proof fn lemma_audio_round_trip(a: AudioConfig)
    ensures
        decode_audio(encode_audio(a)) == Some(a),
{
    reveal_strlit("input_encoding");
    reveal_strlit("input_sample_rate");
    reveal_strlit("output_encoding");
    reveal_strlit("output_sample_rate");
    reveal_strlit("output_format");
    assert("input_encoding"@.len() == 14);
    assert("input_sample_rate"@.len() == 17);
    assert("output_encoding"@.len() == 15);
    assert("output_sample_rate"@.len() == 18);
    assert("output_format"@.len() == 13);
    if a.input_encoding is Some {
        lemma_encoding_names(a.input_encoding->0);
    }
    if a.output_encoding is Some {
        lemma_encoding_names(a.output_encoding->0);
    }
    if a.output_format is Some {
        lemma_format_names(a.output_format->0);
    }
    let j = encode_audio(a);
    assert(decode_encoding(j, "input_encoding"@) == Some(a.input_encoding));
    assert(optional_u32(j, "input_sample_rate"@) == Some(a.input_sample_rate));
    assert(decode_encoding(j, "output_encoding"@) == Some(a.output_encoding));
    assert(optional_u32(j, "output_sample_rate"@) == Some(a.output_sample_rate));
    assert(decode_format(j, "output_format"@) == Some(a.output_format));
}

/// Reading the JSON form of a context gives the context back.
pub proof fn lemma_context_round_trip(c: ContextView)
    ensures
        decode_context(encode_context(c)) == Some(c),
{
    reveal_strlit("type");
    reveal_strlit("text");
    assert("type"@[1] == 'y');
    assert("text"@[1] == 'e');
    lemma_context_type_names(c.context_type);
}

/// Reading the JSON form of variables gives the variables back.
pub proof fn lemma_variables_round_trip(m: Map<Seq<char>, Seq<char>>)
    ensures
        decode_variables(encode_variables(m)) == Some(m),
{
    let e = m.map_values(|s: Seq<char>| Json::String(s));
    assert(e.map_values(|v: Json| v->String_0) =~= m);
}

/// Reading the JSON form of a list of strings gives the list back.
pub proof fn lemma_strings_round_trip(s: Seq<Seq<char>>)
    ensures
        decode_strings(encode_strings(s)) == Some(s),
{
    let e = s.map_values(|x: Seq<char>| Json::String(x));
    assert(e.map_values(|v: Json| v->String_0) =~= s);
}

/// Reading the JSON form of a built-in tool gives the tool back, unless its
/// configuration is the document `null`, which reads as no configuration.
pub proof fn lemma_tool_round_trip(t: BuiltinToolView)
    requires
        t.config != Some(Json::Null),
    ensures
        decode_tool(encode_tool(t)) == Some(t),
{
    reveal_strlit("name");
    reveal_strlit("config");
    assert("name"@.len() == 4);
    assert("config"@.len() == 6);
}

/// No tool of the list has the document `null` as its configuration.
pub open spec fn configs_not_null(s: Seq<BuiltinToolView>) -> bool {
    forall|i: int| 0 <= i < s.len() ==> (#[trigger] s[i]).config != Some(Json::Null)
}

/// Reading the JSON form of a list of built-in tools gives the list back.
pub proof fn lemma_tools_round_trip(s: Seq<BuiltinToolView>)
    requires
        configs_not_null(s),
    ensures
        decode_tools(encode_tools(s)) == Some(s),
{
    let e = s.map_values(|t: BuiltinToolView| encode_tool(t));
    assert forall|i: int| 0 <= i < e.len() implies decode_tool(#[trigger] e[i]) == Some(s[i]) by {
        lemma_tool_round_trip(s[i]);
    }
    assert(e.map_values(|v: Json| decode_tool(v)->0) =~= s);
}

/// No built-in tool of the settings has the document `null` as its
/// configuration.
pub open spec fn settings_configs_not_null(s: SessionSettingsView) -> bool {
    s.builtin_tools matches Some(t) ==> configs_not_null(t)
}

/// Reading the JSON form of session settings gives the settings back.
pub proof fn lemma_settings_round_trip(s: SessionSettingsView)
    requires
        settings_configs_not_null(s),
    ensures
        decode_settings(encode_settings(s)) == Some(s),
{
    reveal_strlit("audio");
    reveal_strlit("system_prompt");
    reveal_strlit("context");
    reveal_strlit("variables");
    reveal_strlit("tools");
    reveal_strlit("builtin_tools");
    assert("audio"@.len() == 5 && "audio"@[0] == 'a');
    assert("system_prompt"@.len() == 13 && "system_prompt"@[0] == 's');
    assert("context"@.len() == 7);
    assert("variables"@.len() == 9);
    assert("tools"@.len() == 5 && "tools"@[0] == 't');
    assert("builtin_tools"@.len() == 13 && "builtin_tools"@[0] == 'b');
    let j = encode_settings(s);
    if s.audio is Some {
        lemma_audio_round_trip(s.audio->0);
    }
    if s.context is Some {
        lemma_context_round_trip(s.context->0);
    }
    if s.variables is Some {
        lemma_variables_round_trip(s.variables->0);
    }
    if s.tools is Some {
        lemma_strings_round_trip(s.tools->0);
    }
    if s.builtin_tools is Some {
        lemma_tools_round_trip(s.builtin_tools->0);
    }
    assert(optional_with(j, "audio"@, |x: Json| decode_audio(x)) == Some(s.audio));
    assert(optional_string(j, "system_prompt"@) == Some(s.system_prompt));
    assert(optional_with(j, "context"@, |x: Json| decode_context(x)) == Some(s.context));
    assert(optional_with(j, "variables"@, |x: Json| decode_variables(x)) == Some(s.variables));
    assert(optional_with(j, "tools"@, |x: Json| decode_strings(x)) == Some(s.tools));
    assert(optional_with(j, "builtin_tools"@, |x: Json| decode_tools(x)) == Some(
        s.builtin_tools,
    ));
}

} // verus!
