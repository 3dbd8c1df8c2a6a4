//! Turning what external commands and the secrets API return into viewer lines.

use vstd::prelude::*;
use crate::describe::{extend_lines, push_line};
use crate::model::{opt_text, or_text, utf8_to_string, RawSecretData};
use crate::text::{concat, concat3, decimal, lines, owned, split_lines, u64_decimal};

verus! {

/// What `String::from_utf8_lossy` makes of `bytes`.
pub uninterp spec fn utf8_lossy(bytes: Seq<u8>) -> Seq<char>;

/// Decodes bytes as UTF-8, replacing invalid sequences.
/// Calls `String::from_utf8_lossy`; its documentation says valid UTF-8 comes
/// back unchanged and each invalid sequence becomes U+FFFD, so bytes that are
/// there give some text. How invalid sequences are replaced is left to the name.
#[verifier::external_body]
pub(crate) fn lossy_text(bytes: &[u8]) -> (r: String)
    ensures
        r@ == utf8_lossy(bytes@),
        vstd::utf8::valid_utf8(bytes@) ==> r@ == vstd::utf8::decode_utf8(bytes@),
        bytes@.len() > 0 ==> r@.len() > 0,
{
    String::from_utf8_lossy(bytes).into_owned()
}

/// The lines `helm list` shows: its output, a note when it printed nothing,
/// or why it could not run.
pub open spec fn helm_view_lines(namespace: Seq<char>, output: Result<Vec<u8>, String>) -> Seq<
    Seq<char>,
> {
    match output {
        Ok(out) => if out@.len() == 0 {
            seq!["No Helm releases in namespace '"@ + namespace + "'"@]
        } else {
            lines(utf8_lossy(out@))
        },
        Err(e) => seq!["Error running helm: "@ + e@],
    }
}

pub fn helm_lines(namespace: &str, output: Result<Vec<u8>, String>) -> (r: Vec<String>)
    ensures
        r.deep_view() == helm_view_lines(namespace@, output),
        r@.len() > 0,
{
    let mut out: Vec<String> = Vec::new();
    match output {
        Ok(bytes) => {
            if bytes.len() == 0 {
                push_line(&mut out, concat3("No Helm releases in namespace '", namespace, "'"));
            } else {
                let text = lossy_text(bytes.as_slice());
                out = split_lines(text.as_str());
            }
        },
        Err(e) => {
            push_line(&mut out, concat("Error running helm: ", e.as_str()));
        },
    }
    assert(out.deep_view() =~= helm_view_lines(namespace@, output));
    out
}

/// The lines `kubectl get -o yaml` shows: its output, or its error output when
/// it printed nothing, or why it could not run.
pub open spec fn yaml_view_lines(output: Result<(Vec<u8>, Vec<u8>), String>) -> Seq<Seq<char>> {
    match output {
        Ok((out, err)) => if out@.len() == 0 {
            seq!["Error: "@ + utf8_lossy(err@)]
        } else {
            lines(utf8_lossy(out@))
        },
        Err(e) => seq!["Error running kubectl: "@ + e@],
    }
}

pub fn yaml_lines(output: Result<(Vec<u8>, Vec<u8>), String>) -> (r: Vec<String>)
    ensures
        r.deep_view() == yaml_view_lines(output),
        r@.len() > 0,
{
    let mut out: Vec<String> = Vec::new();
    match output {
        Ok((stdout, stderr)) => {
            if stdout.len() == 0 {
                let e = lossy_text(stderr.as_slice());
                push_line(&mut out, concat("Error: ", e.as_str()));
            } else {
                let text = lossy_text(stdout.as_slice());
                out = split_lines(text.as_str());
            }
        },
        Err(e) => {
            push_line(&mut out, concat("Error running kubectl: ", e.as_str()));
        },
    }
    assert(out.deep_view() =~= yaml_view_lines(output));
    out
}

/// The clusters `tsh kube ls` lists, or a placeholder when `tsh` could not run.
pub fn tsh_clusters_from(output: Option<Vec<u8>>) -> (r: Vec<String>)
    ensures
        r.deep_view() == match output {
            Some(out) => crate::parse::tsh_cluster_names(utf8_lossy(out@)),
            None => seq!["(tsh not found)"@],
        },
{
    match output {
        Some(bytes) => {
            let text = lossy_text(bytes.as_slice());
            crate::parse::parse_tsh_kube_ls(text.as_str())
        },
        None => {
            let mut out: Vec<String> = Vec::new();
            push_line(&mut out, owned("(tsh not found)"));
            out
        },
    }
}

// ---------------------------------------------------------------- secret data

/// A value's lines, each indented by two spaces.
pub open spec fn indented(ls: Seq<Seq<char>>) -> Seq<Seq<char>> {
    Seq::new(ls.len(), |i: int| "  "@ + ls[i])
}

/// One entry of the decoded view: the key, its value's lines indented, a blank line.
pub open spec fn entry_lines(key: Seq<char>, value: Seq<char>) -> Seq<Seq<char>> {
    seq![key + seq![':']] + indented(lines(value)) + seq![Seq::<char>::empty()]
}

/// A data value as text: decoded when it is UTF-8, else a note of its size.
pub open spec fn data_value_text(bytes: Seq<u8>) -> Seq<char> {
    if vstd::utf8::valid_utf8(bytes) {
        vstd::utf8::decode_utf8(bytes)
    } else {
        "<binary "@ + decimal(bytes.len()) + " bytes>"@
    }
}

pub open spec fn data_entries(d: Seq<(String, Vec<u8>)>) -> Seq<Seq<char>>
    decreases d.len(),
{
    if d.len() == 0 {
        Seq::empty()
    } else {
        data_entries(d.drop_last()) + entry_lines(d.last().0@, data_value_text(d.last().1@))
    }
}

pub open spec fn string_entries(d: Seq<(String, String)>) -> Seq<Seq<char>>
    decreases d.len(),
{
    if d.len() == 0 {
        Seq::empty()
    } else {
        string_entries(d.drop_last()) + entry_lines(d.last().0@, d.last().1@)
    }
}

/// The decoded view of a secret.
pub open spec fn secret_view_lines(name: Seq<char>, namespace: Seq<char>, s: RawSecretData) -> Seq<
    Seq<char>,
> {
    seq![
        "Secret: "@ + name,
        "Namespace: "@ + namespace,
        "Type: "@ + opt_text(s.type_, "Opaque"@),
        Seq::<char>::empty(),
        "── Data (base64-decoded) ─────────────────────"@,
    ] + (match s.data {
        Some(d) => data_entries(d@),
        None => seq!["  (no data)"@],
    }) + match s.string_data {
        Some(sd) => if sd@.len() > 0 {
            seq!["── StringData ────────────────────────────────"@] + string_entries(sd@)
        } else {
            Seq::empty()
        },
        None => Seq::empty(),
    }
}

fn push_entry(out: &mut Vec<String>, key: &str, value: &str)
    ensures
        final(out).deep_view() == old(out).deep_view() + entry_lines(key@, value@),
{
    let ghost start = out.deep_view();
    let mut k = owned(key);
    crate::text::push_char(&mut k, ':');
    assert(k@ =~= key@ + seq![':']);
    push_line(out, k);
    let ls = split_lines(value);
    let ghost s = out.deep_view();
    let mut i: usize = 0;
    while i < ls.len()
        invariant
            ls.deep_view() == lines(value@),
            i <= ls@.len(),
            out.deep_view() == s + indented(lines(value@)).subrange(0, i as int),
        decreases ls@.len() - i,
    {
        assert(ls.deep_view()[i as int] == ls@[i as int]@);
        push_line(out, concat("  ", ls[i].as_str()));
        i = i + 1;
        assert(out.deep_view() =~= s + indented(lines(value@)).subrange(0, i as int));
    }
    assert(indented(lines(value@)).subrange(0, i as int) =~= indented(lines(value@)));
    let ghost body = out.deep_view();
    push_line(out, String::new());
    assert(s == start.push(key@ + seq![':']));
    assert(body == start.push(key@ + seq![':']) + indented(lines(value@)));
    assert(out.deep_view() =~= start + entry_lines(key@, value@));
}

fn data_text(bytes: &Vec<u8>) -> (r: String)
    ensures
        r@ == data_value_text(bytes@),
{
    let mut copy: Vec<u8> = Vec::new();
    let mut i: usize = 0;
    while i < bytes.len()
        invariant
            i <= bytes@.len(),
            copy@ == bytes@.subrange(0, i as int),
        decreases bytes@.len() - i,
    {
        copy.push(bytes[i]);
        i = i + 1;
        assert(copy@ =~= bytes@.subrange(0, i as int));
    }
    assert(copy@ =~= bytes@);
    match utf8_to_string(copy) {
        Some(s) => s,
        None => {
            let n = u64_decimal(bytes.len() as u64);
            concat3("<binary ", n.as_str(), " bytes>")
        },
    }
}

/// The decoded view of a secret: its type, each data value decoded, and any
/// string data.
pub fn secret_data_lines(name: &str, namespace: &str, s: &RawSecretData) -> (r: Vec<String>)
    ensures
        r.deep_view() == secret_view_lines(name@, namespace@, *s),
{
    let mut out: Vec<String> = Vec::new();
    push_line(&mut out, concat("Secret: ", name));
    push_line(&mut out, concat("Namespace: ", namespace));
    let t = or_text(&s.type_, "Opaque");
    push_line(&mut out, concat("Type: ", t.as_str()));
    push_line(&mut out, String::new());
    push_line(&mut out, owned("── Data (base64-decoded) ─────────────────────"));
    let ghost head = out.deep_view();
    match &s.data {
        Some(d) => {
            let mut i: usize = 0;
            assert(data_entries(d@.subrange(0, 0)) =~= Seq::<Seq<char>>::empty());
            while i < d.len()
                invariant
                    i <= d@.len(),
                    out.deep_view() == head + data_entries(d@.subrange(0, i as int)),
                decreases d@.len() - i,
            {
                let ghost pre1 = d@.subrange(0, i + 1);
                assert(pre1.drop_last() =~= d@.subrange(0, i as int));
                assert(pre1.last() == d@[i as int]);
                let v = data_text(&d[i].1);
                push_entry(&mut out, d[i].0.as_str(), v.as_str());
                i = i + 1;
                assert(out.deep_view() =~= head + data_entries(d@.subrange(0, i as int)));
            }
            assert(d@.subrange(0, i as int) =~= d@);
        },
        None => {
            push_line(&mut out, owned("  (no data)"));
        },
    }
    let ghost mid = out.deep_view();
    match &s.string_data {
        Some(sd) => {
            if sd.len() > 0 {
                push_line(&mut out, owned("── StringData ────────────────────────────────"));
                let ghost h2 = out.deep_view();
                let mut i: usize = 0;
                assert(string_entries(sd@.subrange(0, 0)) =~= Seq::<Seq<char>>::empty());
                while i < sd.len()
                    invariant
                        i <= sd@.len(),
                        out.deep_view() == h2 + string_entries(sd@.subrange(0, i as int)),
                    decreases sd@.len() - i,
                {
                    let ghost pre1 = sd@.subrange(0, i + 1);
                    assert(pre1.drop_last() =~= sd@.subrange(0, i as int));
                    assert(pre1.last() == sd@[i as int]);
                    push_entry(&mut out, sd[i].0.as_str(), sd[i].1.as_str());
                    i = i + 1;
                    assert(out.deep_view() =~= h2 + string_entries(sd@.subrange(0, i as int)));
                }
                assert(sd@.subrange(0, i as int) =~= sd@);
            }
        },
        None => {},
    }
    assert(out.deep_view() =~= secret_view_lines(name@, namespace@, *s));
    out
}

/// The decoded view of a secret, or why it could not be fetched.
pub fn secret_view(name: &str, namespace: &str, result: Result<RawSecretData, String>) -> (r: Vec<
    String,
>)
    ensures
        r.deep_view() == match result {
            Ok(s) => secret_view_lines(name@, namespace@, s),
            Err(e) => seq!["Error fetching secret: "@ + e@],
        },
{
    match result {
        Ok(s) => secret_data_lines(name, namespace, &s),
        Err(e) => {
            let mut out: Vec<String> = Vec::new();
            push_line(&mut out, concat("Error fetching secret: ", e.as_str()));
            out
        },
    }
}

} // verus!
