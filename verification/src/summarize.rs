//! The event summarizer: renders a sequence of typed events as a
//! compact text block, one line per event, skipping the bookkeeping
//! sentinel type `"tx"`, optionally decoding attribute keys and values,
//! and annotating attribute values that are registered addresses with
//! their contract names.

use vstd::prelude::*;
use vstd::string::StringExecFns;

use crate::decode::{decode, decoded_bytes, lossy_string, lossy_utf8_of};
use crate::model::{Attribute, Event};
use crate::registry::{first_name_for, Registry, RegistryEntry};

verus! {

/// The text an attribute side contributes: the lossy UTF-8 reading of
/// its decoded bytes when decoding is enabled, the raw text otherwise.
pub open spec fn attr_text(s: Seq<char>, decode_enabled: bool) -> Seq<char> {
    if decode_enabled {
        lossy_utf8_of(decoded_bytes(s))
    } else {
        s
    }
}

/// How an attribute value is rendered: annotated with the first
/// registered name for it, where the registry has a non-empty one.
pub open spec fn rendered_value(v: Seq<char>, entries: Seq<RegistryEntry>) -> Seq<char> {
    match first_name_for(entries, v) {
        Some(n) => if n.len() > 0 {
            v + " ("@ + n + ")"@
        } else {
            v
        },
        None => v,
    }
}

/// The `key: value` fragment of one attribute.
pub open spec fn attr_rendered(a: Attribute, decode_enabled: bool, entries: Seq<RegistryEntry>) -> Seq<
    char,
> {
    attr_text(a.key@, decode_enabled) + ": "@ + rendered_value(
        attr_text(a.value@, decode_enabled),
        entries,
    )
}

/// The attribute fragments of one event, joined by `", "`, with no
/// trailing separator.
pub open spec fn attrs_block(
    attrs: Seq<Attribute>,
    decode_enabled: bool,
    entries: Seq<RegistryEntry>,
) -> Seq<char>
    decreases attrs.len(),
{
    if attrs.len() == 0 {
        Seq::empty()
    } else if attrs.len() == 1 {
        attr_rendered(attrs[0], decode_enabled, entries)
    } else {
        attrs_block(attrs.drop_last(), decode_enabled, entries) + ", "@ + attr_rendered(
            attrs.last(),
            decode_enabled,
            entries,
        )
    }
}

/// The line one event contributes: nothing for the sentinel type
/// `"tx"`, else the header, the attribute block and the closing.
pub open spec fn event_rendered(e: Event, decode_enabled: bool, entries: Seq<RegistryEntry>) -> Seq<
    char,
> {
    if e.event_type@ == "tx"@ {
        Seq::empty()
    } else {
        "--> "@ + e.event_type@ + "( "@ + attrs_block(e.attributes@, decode_enabled, entries)
            + " )\n"@
    }
}

/// The whole summary: the events' lines concatenated in order.
pub open spec fn summary_of(
    events: Seq<Event>,
    decode_enabled: bool,
    entries: Seq<RegistryEntry>,
) -> Seq<char>
    decreases events.len(),
{
    if events.len() == 0 {
        Seq::empty()
    } else {
        summary_of(events.drop_last(), decode_enabled, entries) + event_rendered(
            events.last(),
            decode_enabled,
            entries,
        )
    }
}

/// Summarize a sequence of events as text. Events of the sentinel type
/// `"tx"` are skipped; each retained event becomes one line
/// `--> <type>( <k1>: <v1>, <k2>: <v2> )\n` with its attributes in
/// order, decoded when `decode_enabled` holds, and each value that the
/// registry knows annotated as `<value> (<name>)`.
#[verifier::loop_isolation(false)]
#[verifier::rlimit(100)]
pub fn summarize_events(events: &Vec<Event>, decode_enabled: bool, registry: &Registry) -> (r:
    String)
    ensures
        r@ == summary_of(events@, decode_enabled, registry.entries@),
{
    let tx_sentinel = String::from_str("tx");
    let mut out = String::new();
    proof {
        assert(events@.take(0) =~= Seq::<Event>::empty());
    }
    let mut i: usize = 0;
    while i < events.len()
        invariant
            i <= events@.len(),
            out@ == summary_of(events@.take(i as int), decode_enabled, registry.entries@),
        decreases events@.len() - i,
    {
        let e = &events[i];
        if !(e.event_type == tx_sentinel) {
            out.append("--> ");
            out.append(e.event_type.as_str());
            out.append("( ");
            let ghost head: Seq<char> = summary_of(
                events@.take(i as int),
                decode_enabled,
                registry.entries@,
            ) + "--> "@ + e.event_type@ + "( "@;
            proof {
                assert(e.attributes@.take(0) =~= Seq::<Attribute>::empty());
                assert(out@ =~= head + attrs_block(
                    e.attributes@.take(0),
                    decode_enabled,
                    registry.entries@,
                ));
            }
            let mut j: usize = 0;
            while j < e.attributes.len()
                invariant
                    j <= e.attributes@.len(),
                    out@ == head + attrs_block(
                        e.attributes@.take(j as int),
                        decode_enabled,
                        registry.entries@,
                    ),
                decreases e.attributes@.len() - j,
            {
                let a = &e.attributes[j];
                if j > 0 {
                    out.append(", ");
                }
                let key_s: String;
                let val_s: String;
                if decode_enabled {
                    let kb = decode(a.key.as_str());
                    key_s = lossy_string(kb.as_slice());
                    let vb = decode(a.value.as_str());
                    val_s = lossy_string(vb.as_slice());
                } else {
                    key_s = a.key.clone();
                    val_s = a.value.clone();
                }
                out.append(key_s.as_str());
                out.append(": ");
                match registry.resolve_name(val_s.as_str()) {
                    Some(name) => {
                        if !name.as_str().is_empty() {
                            out.append(val_s.as_str());
                            out.append(" (");
                            out.append(name.as_str());
                            out.append(")");
                        } else {
                            out.append(val_s.as_str());
                        }
                    },
                    None => {
                        out.append(val_s.as_str());
                    },
                }
                proof {
                    let ghost jj: int = j as int;
                    assert(key_s@ == attr_text(a.key@, decode_enabled));
                    assert(val_s@ == attr_text(a.value@, decode_enabled));
                    assert(e.attributes@.take(jj + 1).drop_last() =~= e.attributes@.take(jj));
                    assert(e.attributes@.take(jj + 1).last() == e.attributes@[jj]);
                    assert(out@ =~= head + attrs_block(
                        e.attributes@.take(jj + 1),
                        decode_enabled,
                        registry.entries@,
                    ));
                }
                j = j + 1;
            }
            out.append(" )\n");
            proof {
                assert(e.attributes@.take(e.attributes@.len() as int) =~= e.attributes@);
                assert(out@ =~= summary_of(events@.take(i as int), decode_enabled, registry.entries@)
                    + event_rendered(events@[i as int], decode_enabled, registry.entries@));
            }
        }
        proof {
            let ghost ii: int = i as int;
            assert(events@.take(ii + 1).drop_last() =~= events@.take(ii));
            assert(events@.take(ii + 1).last() == events@[ii]);
            if e.event_type@ == "tx"@ {
                assert(out@ + event_rendered(events@[ii], decode_enabled, registry.entries@) =~= out@);
            }
            assert(out@ == summary_of(events@.take(ii + 1), decode_enabled, registry.entries@));
        }
        i = i + 1;
    }
    proof {
        assert(events@.take(events@.len() as int) =~= events@);
    }
    out
}

/// An empty event sequence summarizes to the empty string.
pub proof fn lemma_summary_empty(decode_enabled: bool, entries: Seq<RegistryEntry>)
    ensures
        summary_of(Seq::<Event>::empty(), decode_enabled, entries) == Seq::<char>::empty(),
{
}

/// Appending one event extends the summary by that event's line.
proof fn lemma_summary_push(s: Seq<Event>, x: Event, decode_enabled: bool, entries: Seq<
    RegistryEntry,
>)
    ensures
        summary_of(s.push(x), decode_enabled, entries) == summary_of(s, decode_enabled, entries)
            + event_rendered(x, decode_enabled, entries),
{
    assert(s.push(x).drop_last() =~= s);
    assert(s.push(x).last() == x);
}

/// The summary never includes an event whose type is the sentinel
/// `"tx"`: summarizing a sequence gives the same text as summarizing
/// the sequence with the sentinel events removed.
pub proof fn lemma_summary_skips_tx(events: Seq<Event>, decode_enabled: bool, entries: Seq<
    RegistryEntry,
>)
    ensures
        summary_of(events, decode_enabled, entries) == summary_of(
            (events.filter(|e: Event| e.event_type@ != "tx"@)),
            decode_enabled,
            entries,
        ),
    decreases events.len(),
{
    reveal(Seq::filter);
    let kept = |e: Event| e.event_type@ != "tx"@;
    if events.len() == 0 {
    } else {
        let rest = events.drop_last();
        lemma_summary_skips_tx(rest, decode_enabled, entries);
        if kept(events.last()) {
            lemma_summary_push(rest.filter(kept), events.last(), decode_enabled, entries);
        } else {
            assert(event_rendered(events.last(), decode_enabled, entries) == Seq::<char>::empty());
            assert(summary_of(rest, decode_enabled, entries) + Seq::<char>::empty() =~= summary_of(
                rest,
                decode_enabled,
                entries,
            ));
        }
    }
}

} // verus!
