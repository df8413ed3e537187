//! The wire payloads of the deploy workflow. A host-creation body always
//! carries the host name and customer id; module, entry function and the
//! environment mapping appear only when present — an omitted field is
//! omitted from the text, never sent as null, so a partial update cannot be
//! read as clearing a field. An empty environment mapping is omitted too.

use vstd::prelude::*;

use crate::envvar::{dedup_env, spec_dedup, EnvValue};
use crate::jsontext::{append_json_string, spec_json_string};

verus! {

/// JSON text of one environment value.
pub open spec fn spec_env_value_json(v: EnvValue) -> Seq<char> {
    match v {
        EnvValue::Null => "null"@,
        EnvValue::Text(s) => spec_json_string(s@),
    }
}

/// `"name":value` for one environment pair.
pub open spec fn spec_env_item(p: (String, EnvValue)) -> Seq<char> {
    spec_json_string(p.0@) + seq![':'] + spec_env_value_json(p.1)
}

/// The environment pairs joined with commas.
pub open spec fn spec_env_items(s: Seq<(String, EnvValue)>) -> Seq<char>
    decreases s.len(),
{
    if s.len() == 0 {
        Seq::empty()
    } else if s.len() == 1 {
        spec_env_item(s[0])
    } else {
        spec_env_items(s.drop_last()) + seq![','] + spec_env_item(s.last())
    }
}

/// The environment mapping as a JSON object.
pub open spec fn spec_env_object(s: Seq<(String, EnvValue)>) -> Seq<char> {
    seq!['{'] + spec_env_items(s) + seq!['}']
}

/// View of an optional field value.
pub open spec fn opt_field_view(o: Option<String>) -> Option<Seq<char>> {
    match o {
        Some(s) => Some(s@),
        None => None,
    }
}

/// `"module":...` field text.
pub open spec fn spec_module_field(m: Seq<char>) -> Seq<char> {
    "\"module\":"@ + spec_json_string(m)
}

/// `"function":...` field text.
pub open spec fn spec_function_field(f: Seq<char>) -> Seq<char> {
    "\"function\":"@ + spec_json_string(f)
}

/// `"env":{...}` field text over the collapsed mapping.
pub open spec fn spec_env_field(env: Seq<(String, EnvValue)>) -> Seq<char> {
    "\"env\":"@ + spec_env_object(spec_dedup(env))
}

/// The host-creation body: host and customer id always, then each present
/// optional field in order, a non-empty environment mapping last.
pub open spec fn spec_create_payload(
    host: Seq<char>,
    customer_id: Seq<char>,
    module: Option<Seq<char>>,
    function: Option<Seq<char>>,
    env: Seq<(String, EnvValue)>,
) -> Seq<char> {
    "{\"host\":"@ + spec_json_string(host) + ",\"customer_id\":"@ + spec_json_string(customer_id)
        + (match module {
        Some(m) => ","@ + spec_module_field(m),
        None => Seq::empty(),
    }) + (match function {
        Some(f) => ","@ + spec_function_field(f),
        None => Seq::empty(),
    }) + (if spec_dedup(env).len() == 0 {
        Seq::<char>::empty()
    } else {
        ","@ + spec_env_field(env)
    }) + "}"@
}

/// The host-update body: only the present fields, comma-separated, so that
/// omitted fields stay untouched on the server.
pub open spec fn spec_configure_payload(
    module: Option<Seq<char>>,
    function: Option<Seq<char>>,
    env: Seq<(String, EnvValue)>,
) -> Seq<char> {
    let has_env = spec_dedup(env).len() != 0;
    seq!['{'] + (match (module, function) {
        (Some(m), Some(f)) => spec_module_field(m) + ","@ + spec_function_field(f) + (if has_env {
            ","@ + spec_env_field(env)
        } else {
            Seq::<char>::empty()
        }),
        (Some(m), None) => spec_module_field(m) + (if has_env {
            ","@ + spec_env_field(env)
        } else {
            Seq::<char>::empty()
        }),
        (None, Some(f)) => spec_function_field(f) + (if has_env {
            ","@ + spec_env_field(env)
        } else {
            Seq::<char>::empty()
        }),
        (None, None) => (if has_env {
            spec_env_field(env)
        } else {
            Seq::<char>::empty()
        }),
    }) + seq!['}']
}

/// Appends `"name":value` for one environment pair.
fn append_env_item(out: &mut String, p: &(String, EnvValue))
    ensures
        final(out)@ == old(out)@ + spec_env_item(*p),
{
    proof {
        reveal_strlit(":");
        reveal_strlit("null");
    }
    append_json_string(out, p.0.as_str());
    out.append(":");
    match &p.1 {
        EnvValue::Null => out.append("null"),
        EnvValue::Text(t) => append_json_string(out, t.as_str()),
    }
    assert(out@ =~= old(out)@ + spec_env_item(*p));
}

/// Appends the environment mapping as a JSON object.
fn append_env_object(out: &mut String, env: &Vec<(String, EnvValue)>)
    ensures
        final(out)@ == old(out)@ + spec_env_object(env@),
{
    proof {
        reveal_strlit("{");
        reveal_strlit("}");
        reveal_strlit(",");
    }
    let ghost orig = out@;
    out.append("{");
    let mut i: usize = 0;
    while i < env.len()
        invariant
            0 <= i <= env@.len(),
            out@ == orig + seq!['{'] + spec_env_items(env@.take(i as int)),
        decreases env@.len() - i,
    {
        proof {
            reveal_strlit(",");
            assert(env@.take(i + 1).drop_last() =~= env@.take(i as int));
            assert(env@.take(i + 1).last() == env@[i as int]);
        }
        if i > 0 {
            out.append(",");
        }
        append_env_item(out, &env[i]);
        assert(out@ =~= orig + seq!['{'] + spec_env_items(env@.take(i + 1)));
        i = i + 1;
    }
    out.append("}");
    assert(env@.take(env@.len() as int) =~= env@);
    assert(out@ =~= old(out)@ + spec_env_object(env@));
}

/// Builds the host-creation body for `POST /hosts`.
pub fn create_payload(
    host: &str,
    customer_id: &str,
    module: &Option<String>,
    function: &Option<String>,
    env: Vec<(String, EnvValue)>,
) -> (r: String)
    ensures
        r@ == spec_create_payload(
            host@,
            customer_id@,
            opt_field_view(*module),
            opt_field_view(*function),
            env@,
        ),
{
    proof {
        reveal_strlit("{\"host\":");
        reveal_strlit(",\"customer_id\":");
        reveal_strlit(",");
        reveal_strlit("\"module\":");
        reveal_strlit("\"function\":");
        reveal_strlit("\"env\":");
        reveal_strlit("}");
    }
    let deduped = dedup_env(env);
    let mut out = String::from_str("{\"host\":");
    append_json_string(&mut out, host);
    out.append(",\"customer_id\":");
    append_json_string(&mut out, customer_id);
    match module {
        Some(m) => {
            out.append(",");
            out.append("\"module\":");
            append_json_string(&mut out, m.as_str());
        },
        None => {},
    }
    match function {
        Some(f) => {
            out.append(",");
            out.append("\"function\":");
            append_json_string(&mut out, f.as_str());
        },
        None => {},
    }
    if deduped.len() > 0 {
        out.append(",");
        out.append("\"env\":");
        append_env_object(&mut out, &deduped);
    }
    out.append("}");
    assert(out@ =~= spec_create_payload(
        host@,
        customer_id@,
        opt_field_view(*module),
        opt_field_view(*function),
        env@,
    ));
    out
}

/// Builds the host-update body for `POST /hosts/{host}`.
pub fn configure_payload(
    module: &Option<String>,
    function: &Option<String>,
    env: Vec<(String, EnvValue)>,
) -> (r: String)
    ensures
        r@ == spec_configure_payload(opt_field_view(*module), opt_field_view(*function), env@),
{
    proof {
        reveal_strlit("{");
        reveal_strlit(",");
        reveal_strlit("\"module\":");
        reveal_strlit("\"function\":");
        reveal_strlit("\"env\":");
        reveal_strlit("}");
    }
    let deduped = dedup_env(env);
    let has_env = deduped.len() > 0;
    let mut out = String::from_str("{");
    let mut first = true;
    match module {
        Some(m) => {
            out.append("\"module\":");
            append_json_string(&mut out, m.as_str());
            first = false;
        },
        None => {},
    }
    match function {
        Some(f) => {
            if !first {
                out.append(",");
            }
            out.append("\"function\":");
            append_json_string(&mut out, f.as_str());
            first = false;
        },
        None => {},
    }
    if has_env {
        if !first {
            out.append(",");
        }
        out.append("\"env\":");
        append_env_object(&mut out, &deduped);
    }
    out.append("}");
    assert(out@ =~= spec_configure_payload(
        opt_field_view(*module),
        opt_field_view(*function),
        env@,
    ));
    out
}

} // verus!
