//! The response envelope: the captured headers, the outcome, and its JSON text.
use vstd::prelude::*;
use crate::config::Component;
use crate::text::{decimal_spec, digit_char, push_decimal};

verus! {

/// `serde_json`'s error type, carried through unopened.
#[verifier::external_type_specification]
#[verifier::external_body]
pub struct ExJsonError(serde_json::Error);

/// The lower-case hexadecimal digit for a value below sixteen.
pub open spec fn hex_char(d: nat) -> char {
    if d < 10 {
        digit_char(d)
    } else if d == 10 {
        'a'
    } else if d == 11 {
        'b'
    } else if d == 12 {
        'c'
    } else if d == 13 {
        'd'
    } else if d == 14 {
        'e'
    } else {
        'f'
    }
}

/// How one character stands inside a JSON string literal: quote and
/// backslash are escaped, control characters take their short escape or
/// `\u00XX`, every other character stands as it is.
pub open spec fn json_escape(c: char) -> Seq<char> {
    let u = c as u32;
    if c == '"' {
        seq!['\\', '"']
    } else if c == '\\' {
        seq!['\\', '\\']
    } else if u == 0x08 {
        seq!['\\', 'b']
    } else if u == 0x09 {
        seq!['\\', 't']
    } else if u == 0x0A {
        seq!['\\', 'n']
    } else if u == 0x0C {
        seq!['\\', 'f']
    } else if u == 0x0D {
        seq!['\\', 'r']
    } else if u < 0x20 {
        seq!['\\', 'u', '0', '0', hex_char((u / 16) as nat), hex_char((u % 16) as nat)]
    } else {
        seq![c]
    }
}

/// The escaped characters of `s`, in order.
pub open spec fn json_escaped(s: Seq<char>) -> Seq<char>
    decreases s.len(),
{
    if s.len() == 0 {
        seq![]
    } else {
        json_escaped(s.drop_last()) + json_escape(s.last())
    }
}

/// The JSON string literal for `s`: its escaped characters between quotes.
pub open spec fn json_quoted(s: Seq<char>) -> Seq<char> {
    seq!['"'] + json_escaped(s) + seq!['"']
}

/// The lower-case form that `str::to_lowercase` gives of `s`.
pub uninterp spec fn lower_of(s: Seq<char>) -> Seq<char>;

/// Relies on `serde_json::to_string` on a `&str`: the string literal for
/// `s`. A string has no error of its own to report and the output buffer
/// is a `Vec`, whose writes do not fail, so the call always succeeds.
#[verifier::external_body]
fn json_string(s: &str) -> (r: Result<String, serde_json::Error>)
    ensures
        r is Ok,
        r matches Ok(t) ==> t@ == json_quoted(s@),
{
    serde_json::to_string(s)
}

/// Relies on `str::to_lowercase`: the result depends on the characters alone.
#[verifier::external_body]
fn lowercase(s: &str) -> (r: String)
    ensures
        r@ == lower_of(s@),
{
    s.to_lowercase()
}

/// The envelope as mathematical values.
pub struct EnvelopeView {
    pub headers: Seq<(Seq<char>, Seq<char>)>,
    pub errors: Option<Seq<Seq<char>>>,
    pub client_address: Seq<char>,
    pub method: Seq<char>,
    pub path: Seq<char>,
    pub status: u16,
    pub smiley: Seq<char>,
}

/// The response envelope of one request.
pub struct ResponseBody {
    /// Header names and values, each name once.
    pub headers: Vec<(String, String)>,
    /// The error messages; `None` when the request succeeded.
    pub errors: Option<Vec<String>>,
    pub client_address: String,
    pub method: String,
    pub path: String,
    pub status: u16,
    pub smiley: String,
}

/// The views of a list of strings.
pub open spec fn texts(v: Seq<String>) -> Seq<Seq<char>> {
    v.map_values(|t: String| t@)
}

impl View for ResponseBody {
    type V = EnvelopeView;

    open spec fn view(&self) -> EnvelopeView {
        EnvelopeView {
            headers: self.headers@.map_values(|p: (String, String)| (p.0@, p.1@)),
            errors: match self.errors {
                Some(es) => Some(texts(es@)),
                None => None,
            },
            client_address: self.client_address@,
            method: self.method@,
            path: self.path@,
            status: self.status,
            smiley: self.smiley@,
        }
    }
}

/// The envelope with every string replaced by its JSON literal.
pub open spec fn quote_view(v: EnvelopeView) -> EnvelopeView {
    EnvelopeView {
        headers: v.headers.map_values(
            |p: (Seq<char>, Seq<char>)| (json_quoted(p.0), json_quoted(p.1)),
        ),
        errors: match v.errors {
            Some(es) => Some(es.map_values(|e: Seq<char>| json_quoted(e))),
            None => None,
        },
        client_address: json_quoted(v.client_address),
        method: json_quoted(v.method),
        path: json_quoted(v.path),
        status: v.status,
        smiley: json_quoted(v.smiley),
    }
}

/// `items` with a comma between each two.
pub open spec fn join_commas(items: Seq<Seq<char>>) -> Seq<char>
    decreases items.len(),
{
    if items.len() == 0 {
        seq![]
    } else if items.len() == 1 {
        items[0]
    } else {
        join_commas(items.drop_last()) + ","@ + items.last()
    }
}

/// One member of a JSON object whose name and value are already literals.
pub open spec fn member_text(p: (Seq<char>, Seq<char>)) -> Seq<char> {
    p.0 + ":"@ + p.1
}

/// The compact JSON object for an envelope whose strings are already JSON
/// literals; the `errors` member is left out when there are none.
pub open spec fn layout(v: EnvelopeView) -> Seq<char> {
    "{\"headers\":{"@ + join_commas(v.headers.map_values(|p: (Seq<char>, Seq<char>)| member_text(p)))
        + "}"@ + match v.errors {
        Some(es) => ",\"errors\":["@ + join_commas(es) + "]"@,
        None => Seq::<char>::empty(),
    } + ",\"client_address\":"@ + v.client_address + ",\"method\":"@ + v.method + ",\"path\":"@
        + v.path + ",\"status\":"@ + decimal_spec(v.status as nat) + ",\"smiley\":"@ + v.smiley
        + "}"@
}

/// The JSON document of an envelope.
pub open spec fn json_text(v: EnvelopeView) -> Seq<char> {
    layout(quote_view(v))
}

/// The text of a header value: empty when it could not be read as text.
pub open spec fn header_text(v: Option<String>) -> Seq<char> {
    match v {
        Some(t) => t@,
        None => Seq::empty(),
    }
}

/// The header map that the request's headers give: names lower-cased, and
/// of two headers with one name the later value kept.
pub open spec fn header_map(hs: Seq<(String, Option<String>)>) -> Map<Seq<char>, Seq<char>>
    decreases hs.len(),
{
    if hs.len() == 0 {
        Map::empty()
    } else {
        header_map(hs.drop_last()).insert(lower_of(hs.last().0@), header_text(hs.last().1))
    }
}

/// Whether the pairs `es` hold each name once and hold exactly the map `m`.
pub open spec fn entries_hold(es: Seq<(String, String)>, m: Map<Seq<char>, Seq<char>>) -> bool {
    &&& forall|i: int, j: int|
        0 <= i < es.len() && 0 <= j < es.len() && i != j ==> es[i].0@ != es[j].0@
    &&& forall|k: Seq<char>|
        #![trigger m.contains_key(k)]
        m.contains_key(k) <==> exists|i: int| 0 <= i < es.len() && es[i].0@ == k
    &&& forall|i: int| 0 <= i < es.len() ==> m[#[trigger] es[i].0@] == es[i].1@
}

/// The message that a simulated failure carries.
pub open spec fn error_message(error_fraction: u32) -> Seq<char> {
    "Smiley error! (error fraction "@ + decimal_spec(error_fraction as nat) + "%)"@
}

/// Builds the message of a simulated failure under `error_fraction` percent.
pub fn failure_message(error_fraction: u32) -> (r: String)
    ensures
        r@ == error_message(error_fraction),
{
    let mut s = String::from_str("Smiley error! (error fraction ");
    push_decimal(&mut s, error_fraction);
    s.append("%)");
    s
}


/// Every name in the header map is the lower-cased name of one of the headers.
pub proof fn lemma_header_names_lowered(hs: Seq<(String, Option<String>)>, k: Seq<char>)
    requires
        header_map(hs).contains_key(k),
    ensures
        exists|j: int| 0 <= j < hs.len() && k == lower_of(#[trigger] hs[j].0@),
    decreases hs.len(),
{
    let last: int = hs.len() - 1;
    if k != lower_of(hs[last].0@) {
        lemma_header_names_lowered(hs.drop_last(), k);
        let j = choose|j: int| 0 <= j < hs.drop_last().len() && k == lower_of(
            #[trigger] hs.drop_last()[j].0@,
        );
        assert(hs[j] == hs.drop_last()[j]);
    }
}

fn find_name(es: &Vec<(String, String)>, name: &String) -> (r: Option<usize>)
    ensures
        r matches Some(j) ==> j < es@.len() && es@[j as int].0@ == name@,
        r is None ==> forall|i: int| 0 <= i < es@.len() ==> es@[i].0@ != name@,
{
    let mut i: usize = 0;
    while i < es.len()
        invariant
            i <= es@.len(),
            forall|k: int| 0 <= k < i ==> es@[k].0@ != name@,
        decreases es@.len() - i,
    {
        if es[i].0 == *name {
            return Some(i);
        }
        i = i + 1;
    }
    None
}

/// Captures the request's headers: each name lower-cased, each value that
/// could not be read as text (`None`) recorded as an empty string, and of
/// two headers with one lower-cased name the later one kept.
pub fn capture_headers(hs: &Vec<(String, Option<String>)>) -> (r: Vec<(String, String)>)
    ensures
        entries_hold(r@, header_map(hs@)),
        forall|i: int|
            0 <= i < r@.len() ==> exists|j: int|
                0 <= j < hs@.len() && (#[trigger] r@[i]).0@ == lower_of(hs@[j].0@),
{
    let mut out: Vec<(String, String)> = Vec::new();
    let mut i: usize = 0;
    assert(hs@.take(0).len() == 0);
    while i < hs.len()
        invariant
            i <= hs@.len(),
            entries_hold(out@, header_map(hs@.take(i as int))),
        decreases hs@.len() - i,
    {
        let key = lowercase(hs[i].0.as_str());
        let value = match &hs[i].1 {
            Some(v) => v.clone(),
            None => String::new(),
        };
        let ghost m = header_map(hs@.take(i as int));
        let ghost es = out@;
        assert(hs@.take(i + 1).drop_last() =~= hs@.take(i as int));
        assert(hs@.take(i + 1).last() == hs@[i as int]);
        assert(value@ == header_text(hs@[i as int].1));
        let ghost m2 = m.insert(key@, value@);
        assert(header_map(hs@.take(i + 1)) == m2);
        match find_name(&out, &key) {
            Some(j) => {
                out[j] = (key, value);
                assert forall|k: Seq<char>| m2.contains_key(k) implies exists|a: int|
                    0 <= a < out@.len() && out@[a].0@ == k by {
                    if k != es[j as int].0@ {
                        let a = choose|a: int| 0 <= a < es.len() && es[a].0@ == k;
                        assert(out@[a] == es[a]);
                    } else {
                        assert(out@[j as int].0@ == k);
                    }
                }
                assert forall|i2: int| 0 <= i2 < out@.len() implies m2[#[trigger] out@[i2].0@]
                    == out@[i2].1@ by {
                    if i2 != j {
                        assert(out@[i2] == es[i2]);
                    }
                }
            },
            None => {
                out.push((key, value));
                assert forall|k: Seq<char>| m2.contains_key(k) implies exists|a: int|
                    0 <= a < out@.len() && out@[a].0@ == k by {
                    if k != key@ {
                        let a = choose|a: int| 0 <= a < es.len() && es[a].0@ == k;
                        assert(out@[a] == es[a]);
                    } else {
                        assert(out@[es.len() as int].0@ == k);
                    }
                }
                assert forall|i2: int| 0 <= i2 < out@.len() implies m2[#[trigger] out@[i2].0@]
                    == out@[i2].1@ by {
                    if i2 < es.len() {
                        assert(out@[i2] == es[i2]);
                    }
                }
            },
        }
        i = i + 1;
    }
    assert(hs@.take(hs@.len() as int) =~= hs@);
    assert forall|i: int| 0 <= i < out@.len() implies exists|j: int|
        0 <= j < hs@.len() && (#[trigger] out@[i]).0@ == lower_of(hs@[j].0@) by {
        assert(header_map(hs@).contains_key(out@[i].0@));
        lemma_header_names_lowered(hs@, out@[i].0@);
    }
    out
}


fn push_joined(out: &mut String, items: &Vec<String>)
    ensures
        final(out)@ == old(out)@ + join_commas(texts(items@)),
{
    let ghost start = out@;
    let ghost all = texts(items@);
    let mut i: usize = 0;
    assert(all.take(0) =~= Seq::<Seq<char>>::empty());
    assert(out@ =~= start + join_commas(all.take(0)));
    while i < items.len()
        invariant
            i <= items@.len(),
            all == texts(items@),
            out@ == start + join_commas(all.take(i as int)),
        decreases items@.len() - i,
    {
        let ghost before = out@;
        if i > 0 {
            out.append(",");
        }
        out.append(items[i].as_str());
        let ghost next = all.take(i + 1);
        assert(next.drop_last() =~= all.take(i as int));
        assert(next.last() == items@[i as int]@);
        assert(out@ =~= start + join_commas(next));
        i = i + 1;
    }
    assert(all.take(items@.len() as int) =~= all);
}

impl ResponseBody {
    /// Lays the envelope out as compact JSON, taking each string as an
    /// already quoted JSON literal.
    pub fn frame_json(&self) -> (r: String)
        ensures
            r@ == layout(self@),
    {
        let ghost members = self@.headers.map_values(
            |p: (Seq<char>, Seq<char>)| member_text(p),
        );
        let mut out = String::from_str("{\"headers\":{");
        let ghost start = out@;
        let mut i: usize = 0;
        assert(members.take(0) =~= Seq::<Seq<char>>::empty());
        assert(out@ =~= start + join_commas(members.take(0)));
        while i < self.headers.len()
            invariant
                i <= self.headers@.len(),
                members.len() == self.headers@.len(),
                members == self@.headers.map_values(
                    |p: (Seq<char>, Seq<char>)| member_text(p),
                ),
                out@ == start + join_commas(members.take(i as int)),
            decreases self.headers@.len() - i,
        {
            if i > 0 {
                out.append(",");
            }
            out.append(self.headers[i].0.as_str());
            out.append(":");
            out.append(self.headers[i].1.as_str());
            let ghost next = members.take(i + 1);
            assert(next.drop_last() =~= members.take(i as int));
            assert(next.last() == member_text(self@.headers[i as int]));
            assert(out@ =~= start + join_commas(next));
            i = i + 1;
        }
        assert(members.take(self.headers@.len() as int) =~= members);
        out.append("}");
        match &self.errors {
            Some(es) => {
                out.append(",\"errors\":[");
                push_joined(&mut out, es);
                out.append("]");
            },
            None => {},
        }
        out.append(",\"client_address\":");
        out.append(self.client_address.as_str());
        out.append(",\"method\":");
        out.append(self.method.as_str());
        out.append(",\"path\":");
        out.append(self.path.as_str());
        out.append(",\"status\":");
        push_decimal(&mut out, self.status as u32);
        out.append(",\"smiley\":");
        out.append(self.smiley.as_str());
        out.append("}");
        assert(out@ =~= layout(self@));
        out
    }
}

fn quote_all(items: &Vec<String>) -> (r: Option<Vec<String>>)
    ensures
        r is Some,
        r matches Some(q) ==> texts(q@) == texts(items@).map_values(
            |e: Seq<char>| json_quoted(e),
        ),
{
    let mut out: Vec<String> = Vec::new();
    let mut i: usize = 0;
    while i < items.len()
        invariant
            i <= items@.len(),
            out@.len() == i,
            forall|k: int| 0 <= k < i ==> (#[trigger] out@[k])@ == json_quoted(items@[k]@),
        decreases items@.len() - i,
    {
        match json_string(items[i].as_str()) {
            Ok(t) => out.push(t),
            Err(_) => return None,
        }
        i = i + 1;
    }
    assert(texts(out@) =~= texts(items@).map_values(|e: Seq<char>| json_quoted(e)));
    Some(out)
}

impl ResponseBody {
    /// The envelope with every string turned into its JSON literal; `None`
    /// would mean that `serde_json` reported an error for one of them.
    pub fn quoted(&self) -> (r: Option<ResponseBody>)
        ensures
            r is Some,
            r matches Some(q) ==> q@ == quote_view(self@),
    {
        let mut headers: Vec<(String, String)> = Vec::new();
        let mut i: usize = 0;
        while i < self.headers.len()
            invariant
                i <= self.headers@.len(),
                headers@.len() == i,
                forall|k: int|
                    0 <= k < i ==> (#[trigger] headers@[k]).0@ == json_quoted(
                        self.headers@[k].0@,
                    ) && headers@[k].1@ == json_quoted(self.headers@[k].1@),
            decreases self.headers@.len() - i,
        {
            let name = match json_string(self.headers[i].0.as_str()) {
                Ok(t) => t,
                Err(_) => return None,
            };
            let value = match json_string(self.headers[i].1.as_str()) {
                Ok(t) => t,
                Err(_) => return None,
            };
            headers.push((name, value));
            i = i + 1;
        }
        let errors = match &self.errors {
            Some(es) => match quote_all(es) {
                Some(q) => Some(q),
                None => return None,
            },
            None => None,
        };
        let client_address = match json_string(self.client_address.as_str()) {
            Ok(t) => t,
            Err(_) => return None,
        };
        let method = match json_string(self.method.as_str()) {
            Ok(t) => t,
            Err(_) => return None,
        };
        let path = match json_string(self.path.as_str()) {
            Ok(t) => t,
            Err(_) => return None,
        };
        let smiley = match json_string(self.smiley.as_str()) {
            Ok(t) => t,
            Err(_) => return None,
        };
        let q = ResponseBody {
            headers,
            errors,
            client_address,
            method,
            path,
            status: self.status,
            smiley,
        };
        assert(q@.headers =~= quote_view(self@).headers);
        assert(q@ == quote_view(self@));
        Some(q)
    }

    /// The envelope as a JSON document; `None` would mean that `serde_json`
    /// reported an error for one of its strings.
    pub fn to_json(&self) -> (r: Option<String>)
        ensures
            r is Some,
            r matches Some(t) ==> t@ == json_text(self@),
    {
        match self.quoted() {
            Some(q) => Some(q.frame_json()),
            None => None,
        }
    }

    /// The response body: the JSON document, with an empty body as the
    /// fallback should it ever fail to be written.
    pub fn body_text(&self) -> (r: String)
        ensures
            r@ == json_text(self@),
    {
        match self.to_json() {
            Some(t) => t,
            None => String::new(),
        }
    }
}

/// The status of a request that failed or not.
pub open spec fn status_for(failed: bool) -> u16 {
    if failed {
        500
    } else {
        200
    }
}

/// Whether `r` is the envelope that `c` gives for a request with `method`,
/// `path` and headers `hs`, failed or not.
pub open spec fn assembled(
    c: Component,
    failed: bool,
    method: Seq<char>,
    path: Seq<char>,
    hs: Seq<(String, Option<String>)>,
    r: ResponseBody,
) -> bool {
    &&& r.status == status_for(failed)
    &&& failed ==> r@.errors == Some(seq![error_message(c.error_fraction)])
    &&& !failed ==> r.errors is None
    &&& r.client_address@ == "unknown"@
    &&& r.method@ == method
    &&& r.path@ == path
    &&& r.smiley@ == c.smiley@
    &&& entries_hold(r.headers@, header_map(hs))
    &&& forall|i: int|
        0 <= i < r.headers@.len() ==> exists|j: int|
            0 <= j < hs.len() && (#[trigger] r.headers@[i]).0@ == lower_of(hs[j].0@)
}

impl Component {
    /// Assembles the envelope of a request with `method`, `path` and
    /// `headers`, as a failure (500, one message naming the error fraction)
    /// or a success (200, no error list).
    pub fn build_body(
        &self,
        failed: bool,
        method: String,
        path: String,
        headers: &Vec<(String, Option<String>)>,
    ) -> (r: ResponseBody)
        ensures
            assembled(*self, failed, method@, path@, headers@, r),
    {
        let errors = if failed {
            let mut es: Vec<String> = Vec::new();
            es.push(failure_message(self.error_fraction));
            assert(texts(es@) =~= seq![error_message(self.error_fraction)]);
            Some(es)
        } else {
            None
        };
        ResponseBody {
            headers: capture_headers(headers),
            errors,
            client_address: String::from_str("unknown"),
            method,
            path,
            status: if failed {
                500
            } else {
                200
            },
            smiley: String::from_str(self.smiley),
        }
    }

    /// Draws whether the request fails and assembles its envelope: at 0
    /// percent it always succeeds, at 100 it always fails.
    pub fn respond(
        &self,
        method: String,
        path: String,
        headers: &Vec<(String, Option<String>)>,
    ) -> (r: ResponseBody)
        ensures
            assembled(*self, r.status == 500, method@, path@, headers@, r),
            self.error_fraction == 0 ==> r.status == 200,
            self.error_fraction >= 100 ==> r.status == 500,
    {
        let failed = self.should_error();
        self.build_body(failed, method, path, headers)
    }
}

} // verus!
