//! The samples that the API server logs to Scuba for each request.

use vstd::prelude::*;

use crate::arg_values;

verus! {

/// A value of a Scuba sample.
pub enum ScubaValue {
    Text(String),
    Int(u64),
}

pub enum ScubaValueView {
    Text(Seq<char>),
    Int(int),
}

pub open spec fn value_view(v: ScubaValue) -> ScubaValueView {
    match v {
        ScubaValue::Text(s) => ScubaValueView::Text(s@),
        ScubaValue::Int(n) => ScubaValueView::Int(n as int),
    }
}

pub open spec fn sample_view(sample: Seq<(&'static str, ScubaValue)>) -> Seq<(Seq<char>, ScubaValueView)> {
    sample.map_values(|f: (&'static str, ScubaValue)| (f.0@, value_view(f.1)))
}

/// The fields logged when a request starts: the host it was sent to, the
/// client where it is known, the kind of request, its method and its path.
pub open spec fn start_fields(
    host: Seq<char>,
    remote: Option<Seq<char>>,
    method: Seq<char>,
    path: Seq<char>,
) -> Seq<(Seq<char>, ScubaValueView)> {
    seq![("hostname"@, ScubaValueView::Text(host))] + (match remote {
        Some(client) => seq![("client"@, ScubaValueView::Text(client))],
        None => Seq::empty(),
    }) + seq![
        ("type"@, ScubaValueView::Text("http"@)),
        ("method"@, ScubaValueView::Text(method)),
        ("path"@, ScubaValueView::Text(path)),
    ]
}

/// The fields that the sample of a request starts with, in the order they
/// are added.
pub fn start_sample_fields(host: String, remote: Option<String>, method: String, path: String) -> (r:
    Vec<(&'static str, ScubaValue)>)
    ensures
        sample_view(r@) == start_fields(
            host@,
            arg_values::opt_text(remote),
            method@,
            path@,
        ),
{
    let ghost remote_view = arg_values::opt_text(remote);
    let ghost h = host@;
    let ghost m = method@;
    let ghost p = path@;
    let mut r: Vec<(&'static str, ScubaValue)> = Vec::new();
    r.push(("hostname", ScubaValue::Text(host)));
    if let Some(client) = remote {
        r.push(("client", ScubaValue::Text(client)));
    }
    r.push(("type", ScubaValue::Text("http".to_string())));
    r.push(("method", ScubaValue::Text(method)));
    r.push(("path", ScubaValue::Text(path)));
    assert(sample_view(r@) =~= start_fields(h, remote_view, m, p));
    r
}

/// The fields added to the sample of a request when it finishes: the status
/// code, the size of the response, and the time it took where it is known.
pub open spec fn finish_fields(status_code: u16, response_size: u64, response_time: Option<u64>) -> Seq<
    (Seq<char>, ScubaValueView),
> {
    seq![
        ("status_code"@, ScubaValueView::Int(status_code as int)),
        ("response_size"@, ScubaValueView::Int(response_size as int)),
    ] + match response_time {
        Some(t) => seq![("response_time"@, ScubaValueView::Int(t as int))],
        None => Seq::empty(),
    }
}

/// The fields added to the sample of a request when it finishes, in the
/// order they are added.
pub fn finish_sample_fields(status_code: u16, response_size: u64, response_time: Option<u64>) -> (r:
    Vec<(&'static str, ScubaValue)>)
    ensures
        sample_view(r@) == finish_fields(status_code, response_size, response_time),
{
    let mut r: Vec<(&'static str, ScubaValue)> = Vec::new();
    r.push(("status_code", ScubaValue::Int(status_code as u64)));
    r.push(("response_size", ScubaValue::Int(response_size)));
    if let Some(time) = response_time {
        r.push(("response_time", ScubaValue::Int(time)));
    }
    assert(sample_view(r@) =~= finish_fields(status_code, response_size, response_time));
    r
}

/// A sample with `fields` added in order; a field added later replaces one
/// of the same name.
pub open spec fn add_fields(
    sample: Map<Seq<char>, ScubaValueView>,
    fields: Seq<(Seq<char>, ScubaValueView)>,
) -> Map<Seq<char>, ScubaValueView>
    decreases fields.len(),
{
    if fields.len() == 0 {
        sample
    } else {
        add_fields(sample, fields.drop_last()).insert(fields.last().0, fields.last().1)
    }
}

/// Adding fields in two steps adds them all in order.
proof fn lemma_add_fields_append(
    sample: Map<Seq<char>, ScubaValueView>,
    a: Seq<(Seq<char>, ScubaValueView)>,
    b: Seq<(Seq<char>, ScubaValueView)>,
)
    ensures
        add_fields(add_fields(sample, a), b) == add_fields(sample, a + b),
    decreases b.len(),
{
    if b.len() > 0 {
        lemma_add_fields_append(sample, a, b.drop_last());
        assert((a + b).drop_last() =~= a + b.drop_last());
    } else {
        assert(a + b =~= a);
    }
}

/// Names that no two of `fields` share.
pub open spec fn distinct_names(fields: Seq<(Seq<char>, ScubaValueView)>) -> bool {
    forall|i: int, j: int| 0 <= i < j < fields.len() ==> (#[trigger] fields[i]).0 != (#[trigger] fields[j]).0
}

/// Each of fields with distinct names is held after they are added.
proof fn lemma_added_field(
    sample: Map<Seq<char>, ScubaValueView>,
    fields: Seq<(Seq<char>, ScubaValueView)>,
    i: int,
)
    requires
        distinct_names(fields),
        0 <= i < fields.len(),
    ensures
        add_fields(sample, fields).contains_key(fields[i].0),
        add_fields(sample, fields)[fields[i].0] == fields[i].1,
    decreases fields.len(),
{
    if i < fields.len() - 1 {
        let init = fields.drop_last();
        assert(init[i] == fields[i]);
        assert forall|a: int, b: int| 0 <= a < b < init.len() implies (#[trigger] init[a]).0 != (
        #[trigger] init[b]).0 by {
            assert(init[a] == fields[a] && init[b] == fields[b]);
        }
        lemma_added_field(sample, init, i);
        assert(fields[i].0 != fields[fields.len() - 1].0);
    }
}

/// A name under which no field is added keeps what the sample held.
proof fn lemma_untouched_field(
    sample: Map<Seq<char>, ScubaValueView>,
    fields: Seq<(Seq<char>, ScubaValueView)>,
    key: Seq<char>,
)
    requires
        forall|i: int| 0 <= i < fields.len() ==> (#[trigger] fields[i]).0 != key,
    ensures
        add_fields(sample, fields).contains_key(key) == sample.contains_key(key),
        add_fields(sample, fields)[key] == sample[key],
    decreases fields.len(),
{
    if fields.len() > 0 {
        let init = fields.drop_last();
        assert forall|i: int| 0 <= i < init.len() implies (#[trigger] init[i]).0 != key by {
            assert(init[i] == fields[i]);
        }
        lemma_untouched_field(sample, init, key);
        assert(fields[fields.len() - 1].0 != key);
    }
}

/// The names of the fields that a request adds to its sample.
pub open spec fn added_by_request(k: Seq<char>) -> bool {
    ||| k == "hostname"@
    ||| k == "client"@
    ||| k == "type"@
    ||| k == "method"@
    ||| k == "path"@
    ||| k == "status_code"@
    ||| k == "response_size"@
    ||| k == "response_time"@
}

/// A request's sample, started from the middleware's sample `base` with the
/// fields of [`start_sample_fields`] and finished with those of
/// [`finish_sample_fields`], holds the host, the client exactly where it is
/// known, the type "http", the method, the path, the status code, the
/// response size, and the response time exactly where it is known; every
/// other field of `base` stays as it was.
pub proof fn lemma_request_sample(
    base: Map<Seq<char>, ScubaValueView>,
    host: Seq<char>,
    remote: Option<Seq<char>>,
    method: Seq<char>,
    path: Seq<char>,
    status_code: u16,
    response_size: u64,
    response_time: Option<u64>,
)
    ensures
        ({
            let sample = add_fields(
                add_fields(base, start_fields(host, remote, method, path)),
                finish_fields(status_code, response_size, response_time),
            );
            &&& sample.contains_key("hostname"@) && sample["hostname"@] == ScubaValueView::Text(host)
            &&& remote matches Some(client) ==> sample.contains_key("client"@) && sample["client"@]
                == ScubaValueView::Text(client)
            &&& remote is None ==> sample.contains_key("client"@) == base.contains_key("client"@)
                && (base.contains_key("client"@) ==> sample["client"@] == base["client"@])
            &&& sample.contains_key("type"@) && sample["type"@] == ScubaValueView::Text("http"@)
            &&& sample.contains_key("method"@) && sample["method"@] == ScubaValueView::Text(method)
            &&& sample.contains_key("path"@) && sample["path"@] == ScubaValueView::Text(path)
            &&& sample.contains_key("status_code"@) && sample["status_code"@] == ScubaValueView::Int(
                status_code as int,
            )
            &&& sample.contains_key("response_size"@) && sample["response_size"@] == ScubaValueView::Int(
                response_size as int,
            )
            &&& response_time matches Some(t) ==> sample.contains_key("response_time"@)
                && sample["response_time"@] == ScubaValueView::Int(t as int)
            &&& response_time is None ==> sample.contains_key("response_time"@) == base.contains_key(
                "response_time"@,
            ) && (base.contains_key("response_time"@) ==> sample["response_time"@] == base["response_time"@])
            &&& forall|k: Seq<char>|
                !added_by_request(k) ==> #[trigger] sample.contains_key(k) == base.contains_key(k) && (
                base.contains_key(k) ==> sample[k] == base[k])
        }),
{
    let s = start_fields(host, remote, method, path);
    let f = finish_fields(status_code, response_size, response_time);
    let all = s + f;
    lemma_add_fields_append(base, s, f);
    reveal_strlit("hostname");
    reveal_strlit("client");
    reveal_strlit("type");
    reveal_strlit("method");
    reveal_strlit("path");
    reveal_strlit("status_code");
    reveal_strlit("response_size");
    reveal_strlit("response_time");
    assert("hostname"@.len() == 8 && "client"@.len() == 6 && "type"@.len() == 4 && "method"@.len() == 6
        && "path"@.len() == 4 && "status_code"@.len() == 11 && "response_size"@.len() == 13
        && "response_time"@.len() == 13);
    assert("client"@[0] == 'c' && "method"@[0] == 'm');
    assert("type"@[0] == 't' && "path"@[0] == 'p');
    assert("response_size"@[9] == 's' && "response_time"@[9] == 't');
    let c: int = if remote is Some { 1 } else { 0 };
    let n = all.len();
    assert(n == 6 + c + if response_time is Some { 1int } else { 0int });
    assert(all[0] == ("hostname"@, ScubaValueView::Text(host)));
    assert(all[1 + c] == ("type"@, ScubaValueView::Text("http"@)));
    assert(all[2 + c] == ("method"@, ScubaValueView::Text(method)));
    assert(all[3 + c] == ("path"@, ScubaValueView::Text(path)));
    assert(all[4 + c] == ("status_code"@, ScubaValueView::Int(status_code as int)));
    assert(all[5 + c] == ("response_size"@, ScubaValueView::Int(response_size as int)));
    let names = seq!["hostname"@, "client"@, "type"@, "method"@, "path"@, "status_code"@, "response_size"@, "response_time"@];
    // Where each field stands among the names of a request.
    let at = |i: int| if i == 0 { 0int } else if i < 1 + c { 1int } else if i < 6 + c { i - c + 1 } else { 7int };
    assert forall|i: int| 0 <= i < n implies (#[trigger] all[i]).0 == names[at(i)] by {
        if remote is Some && i == 1 {
        }
        if i == 6 + c {
        }
    }
    assert forall|a: int, b: int| 0 <= a < b < 8 implies (#[trigger] names[a]) != (#[trigger] names[b]) by {}
    assert forall|a: int, b: int| 0 <= a < b < n implies (#[trigger] all[a]).0 != (#[trigger] all[b]).0 by {
        assert(at(a) < at(b));
    }
    lemma_added_field(base, all, 0);
    lemma_added_field(base, all, 1 + c);
    lemma_added_field(base, all, 2 + c);
    lemma_added_field(base, all, 3 + c);
    lemma_added_field(base, all, 4 + c);
    lemma_added_field(base, all, 5 + c);
    if let Some(client) = remote {
        assert(all[1] == ("client"@, ScubaValueView::Text(client)));
        lemma_added_field(base, all, 1);
    } else {
        lemma_untouched_field(base, all, "client"@);
    }
    if let Some(rt) = response_time {
        assert(all[6 + c] == ("response_time"@, ScubaValueView::Int(rt as int)));
        lemma_added_field(base, all, 6 + c);
    } else {
        lemma_untouched_field(base, all, "response_time"@);
    }
    let sample = add_fields(add_fields(base, s), f);
    assert(sample == add_fields(base, all));
    assert forall|k: Seq<char>| !added_by_request(k) implies #[trigger] sample.contains_key(k)
        == base.contains_key(k) && (base.contains_key(k) ==> sample[k] == base[k]) by {
        assert forall|i: int| 0 <= i < n implies (#[trigger] all[i]).0 != k by {
            assert(all[i].0 == names[at(i)]);
        }
        lemma_untouched_field(base, all, k);
    }
}

} // verus!
