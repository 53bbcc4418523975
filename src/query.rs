use vstd::prelude::*;
use vstd::string::*;
use crate::handlers::{debug_quoted, debug_text};

verus! {

/// A decoded query parameter, as text.
pub type ParamView = (Seq<char>, Seq<char>);

/// The mathematical value of a list of decoded query parameters.
pub open spec fn params_view(v: Seq<(String, String)>) -> Seq<ParamView> {
    v.map_values(|p: (String, String)| (p.0@, p.1@))
}

/// No parameter after position `i` has the key of the one at `i`.
pub open spec fn is_last_of_key(ps: Seq<ParamView>, i: int) -> bool {
    forall|j: int| i < j < ps.len() ==> #[trigger] ps[j].0 != ps[i].0
}

/// The parameters among the first `n` that no later parameter overrides,
/// in their order.
pub open spec fn last_wins_prefix(ps: Seq<ParamView>, n: nat) -> Seq<ParamView>
    decreases n,
{
    if n == 0 {
        Seq::empty()
    } else {
        let rest = last_wins_prefix(ps, (n - 1) as nat);
        if is_last_of_key(ps, n - 1) {
            rest.push(ps[n - 1])
        } else {
            rest
        }
    }
}

/// The query map of a parameter list: one entry per key, holding the value
/// that the key was given last, ordered by where that last value stands.
pub open spec fn last_wins(ps: Seq<ParamView>) -> Seq<ParamView> {
    last_wins_prefix(ps, ps.len())
}

/// One entry of a map as `Debug` writes it: `"key": "value"`.
pub open spec fn entry_text(e: ParamView) -> Seq<char> {
    debug_text(e.0) + ": "@ + debug_text(e.1)
}

/// The entries of a map, separated by `", "`.
pub open spec fn entries_text(es: Seq<ParamView>) -> Seq<char>
    decreases es.len(),
{
    if es.len() == 0 {
        Seq::empty()
    } else if es.len() == 1 {
        entry_text(es[0])
    } else {
        entries_text(es.drop_last()) + ", "@ + entry_text(es.last())
    }
}

/// A map as `Debug` writes it: `{"x": "1", "y": "2"}`.
pub open spec fn map_text(es: Seq<ParamView>) -> Seq<char> {
    "{"@ + entries_text(es) + "}"@
}

/// Body of `GET /items` for the decoded query parameters `ps`.
pub open spec fn items_query_text(ps: Seq<ParamView>) -> Seq<char> {
    "Get items with query params: "@ + map_text(last_wins(ps))
}

/// Collapses decoded query parameters into a map: a repeated key keeps the
/// value it was given last.
pub fn last_wins_entries(params: &Vec<(String, String)>) -> (r: Vec<(String, String)>)
    ensures
        params_view(r@) == last_wins(params_view(params@)),
{
    let ghost ps = params_view(params@);
    let mut out: Vec<(String, String)> = Vec::new();
    let mut i: usize = 0;
    assert(params_view(out@) =~= last_wins_prefix(ps, 0));
    while i < params.len()
        invariant
            i <= params.len(),
            ps == params_view(params@),
            params_view(out@) == last_wins_prefix(ps, i as nat),
        decreases params.len() - i,
    {
        let mut last = true;
        let mut j: usize = i + 1;
        while j < params.len()
            invariant
                i < j <= params.len(),
                i < params.len(),
                ps == params_view(params@),
                last <==> (forall|t: int| i < t < j ==> #[trigger] ps[t].0 != ps[i as int].0),
            decreases params.len() - j,
        {
            let same = params[j].0 == params[i].0;
            assert(ps[j as int].0 == params@[j as int].0@ && ps[i as int].0 == params@[i as int].0@);
            if same {
                last = false;
            }
            j += 1;
        }
        assert(last <==> is_last_of_key(ps, i as int));
        if last {
            let entry = (params[i].0.clone(), params[i].1.clone());
            let ghost before = out@;
            out.push(entry);
            assert(params_view(out@) =~= params_view(before).push(ps[i as int]));
        }
        i += 1;
    }
    assert(ps.len() == params@.len());
    out
}

/// Writes a map of text entries as `Debug` writes a map of strings.
pub fn format_map(entries: &Vec<(String, String)>) -> (r: String)
    ensures
        r@ == map_text(params_view(entries@)),
{
    let ghost es = params_view(entries@);
    let mut s = String::from_str("{");
    let mut k: usize = 0;
    while k < entries.len()
        invariant
            k <= entries.len(),
            es == params_view(entries@),
            s@ == "{"@ + entries_text(es.subrange(0, k as int)),
        decreases entries.len() - k,
    {
        let ghost prev = s@;
        if k > 0 {
            s.append(", ");
        }
        let key = debug_quoted(entries[k].0.as_str());
        let value = debug_quoted(entries[k].1.as_str());
        s.append(key.as_str());
        s.append(": ");
        s.append(value.as_str());
        proof {
            let sub = es.subrange(0, k + 1);
            assert(sub.drop_last() =~= es.subrange(0, k as int));
            assert(sub.last() == es[k as int]);
            if k == 0 {
                assert(es.subrange(0, 0) =~= Seq::<ParamView>::empty());
                assert(s@ =~= "{"@ + entries_text(sub));
            } else {
                assert(s@ =~= "{"@ + entries_text(sub));
            }
        }
        k += 1;
    }
    assert(es.subrange(0, entries.len() as int) =~= es);
    s.append("}");
    s
}

/// Handler of `GET /items`: reports the query map, a repeated key keeping
/// its last value.
pub fn get_items(params: &Vec<(String, String)>) -> (r: String)
    ensures
        r@ == items_query_text(params_view(params@)),
{
    let entries = last_wins_entries(params);
    let map = format_map(&entries);
    let mut s = String::from_str("Get items with query params: ");
    s.append(map.as_str());
    s
}

} // verus!
