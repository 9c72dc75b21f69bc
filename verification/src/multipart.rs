//! `multipart/form-data` bodies: text fields, file parts, the closing
//! delimiter, and boundary strings.
//!
//! A body is built by appending parts to a byte buffer. Each part opens with
//! a delimiter line `--{boundary}\r\n`; the body ends with
//! `--{boundary}--\r\n`.

use vstd::prelude::*;

use crate::text;

verus! {

#[verifier::external_type_specification]
#[verifier::external_body]
pub struct ExSystemTime(std::time::SystemTime);

/// UTF-8 bytes of a text.
#[verifier::opaque]
pub open spec fn utf8(s: Seq<char>) -> Seq<u8> {
    vstd::utf8::encode_utf8(s)
}

/// Encoding a concatenation is concatenating the encodings.
pub proof fn lemma_utf8_concat(a: Seq<char>, b: Seq<char>)
    ensures
        utf8(a + b) == utf8(a) + utf8(b),
    decreases a.len(),
{
    reveal(utf8);
    if a.len() == 0 {
        assert(a + b =~= b);
        assert(utf8(a) =~= Seq::<u8>::empty());
        assert(utf8(a) + utf8(b) =~= utf8(b));
    } else {
        lemma_utf8_concat(a.drop_first(), b);
        assert((a + b).drop_first() =~= a.drop_first() + b);
        assert((a + b)[0] == a[0]);
        assert(utf8(a + b) =~= vstd::utf8::encode_scalar(a[0] as u32) + utf8(a.drop_first() + b));
        assert(utf8(a) =~= vstd::utf8::encode_scalar(a[0] as u32) + utf8(a.drop_first()));
    }
}

/// The text of a form field: delimiter line, `Content-Disposition` header
/// naming the field, a blank line, the value and a line break.
pub open spec fn text_field_text(boundary: Seq<char>, name: Seq<char>, value: Seq<char>) -> Seq<char> {
    "--"@ + boundary + "\r\n"@ + "Content-Disposition: form-data; name=\""@ + name
        + "\"\r\n\r\n"@ + value + "\r\n"@
}

/// The bytes of a form field.
pub open spec fn text_field_bytes(boundary: Seq<char>, name: Seq<char>, value: Seq<char>) -> Seq<u8> {
    utf8(text_field_text(boundary, name, value))
}

/// The head of a file part: delimiter line, `Content-Disposition` with the
/// field and file names, `Content-Type`, and a blank line.
pub open spec fn file_head_text(
    boundary: Seq<char>,
    field_name: Seq<char>,
    filename: Seq<char>,
    content_type: Seq<char>,
) -> Seq<char> {
    "--"@ + boundary + "\r\n"@ + "Content-Disposition: form-data; name=\""@ + field_name
        + "\"; filename=\""@ + filename + "\"\r\n"@ + "Content-Type: "@ + content_type
        + "\r\n\r\n"@
}

/// The bytes of a file part: its head, the file's bytes, and a line break.
pub open spec fn file_part_bytes(
    boundary: Seq<char>,
    field_name: Seq<char>,
    filename: Seq<char>,
    content_type: Seq<char>,
    data: Seq<u8>,
) -> Seq<u8> {
    utf8(file_head_text(boundary, field_name, filename, content_type)) + data + utf8("\r\n"@)
}

/// The closing delimiter of a body.
pub open spec fn closing_bytes(boundary: Seq<char>) -> Seq<u8> {
    utf8("--"@ + boundary + "--\r\n"@)
}

/// A form field when the value is present, nothing otherwise.
pub open spec fn opt_field_bytes(boundary: Seq<char>, name: Seq<char>, value: Option<Seq<char>>) -> Seq<u8> {
    match value {
        Some(v) => text_field_bytes(boundary, name, v),
        None => seq![],
    }
}

/// A file part when a file is given, nothing otherwise.
pub open spec fn opt_file_bytes(
    boundary: Seq<char>,
    field_name: Seq<char>,
    file: Option<(Seq<char>, Seq<char>, Seq<u8>)>,
) -> Seq<u8> {
    match file {
        Some((filename, content_type, data)) => file_part_bytes(
            boundary,
            field_name,
            filename,
            content_type,
            data,
        ),
        None => seq![],
    }
}

/// The view of an optional `String`.
pub open spec fn opt_view(o: Option<String>) -> Option<Seq<char>> {
    match o {
        Some(s) => Some(s@),
        None => None,
    }
}

/// The view of an optional `&str`.
pub open spec fn opt_str_view(o: Option<&str>) -> Option<Seq<char>> {
    match o {
        Some(s) => Some(s@),
        None => None,
    }
}

/// The view of an optional `(filename, content_type, data)` file.
pub open spec fn file_view(file: Option<(&str, &str, &[u8])>) -> Option<(Seq<char>, Seq<char>, Seq<u8>)> {
    match file {
        Some((f, ct, d)) => Some((f@, ct@, d@)),
        None => None,
    }
}

/// The view of an optional `(data, filename, content_type)` file.
pub open spec fn data_first_file_view(file: Option<(&[u8], &str, &str)>) -> Option<(Seq<char>, Seq<char>, Seq<u8>)> {
    match file {
        Some((d, f, ct)) => Some((f@, ct@, d@)),
        None => None,
    }
}

/// Appends the UTF-8 bytes of `s`.
pub fn push_str(buf: &mut Vec<u8>, s: &str)
    ensures
        final(buf)@ == old(buf)@ + utf8(s@),
{
    let bytes = s.as_bytes();
    push_bytes(buf, bytes);
    proof {
        reveal(utf8);
    }
}

/// Appends raw bytes.
pub fn push_bytes(buf: &mut Vec<u8>, data: &[u8])
    ensures
        final(buf)@ == old(buf)@ + data@,
{
    let ghost start = buf@;
    let mut i: usize = 0;
    while i < data.len()
        invariant
            i <= data@.len(),
            buf@ == start + data@.subrange(0, i as int),
        decreases data@.len() - i,
    {
        buf.push(data[i]);
        i = i + 1;
        assert(data@.subrange(0, i as int) =~= data@.subrange(0, i - 1) + seq![data@[i - 1]]);
    }
    assert(data@.subrange(0, data@.len() as int) =~= data@);
}

proof fn lemma_text_field_bytes(boundary: Seq<char>, name: Seq<char>, value: Seq<char>)
    ensures
        text_field_bytes(boundary, name, value) == utf8("--"@) + utf8(boundary) + utf8("\r\n"@)
            + utf8("Content-Disposition: form-data; name=\""@) + utf8(name) + utf8(
            "\"\r\n\r\n"@,
        ) + utf8(value) + utf8("\r\n"@),
{
    let t1 = "--"@ + boundary;
    let t2 = t1 + "\r\n"@;
    let t3 = t2 + "Content-Disposition: form-data; name=\""@;
    let t4 = t3 + name;
    let t5 = t4 + "\"\r\n\r\n"@;
    let t6 = t5 + value;
    lemma_utf8_concat("--"@, boundary);
    lemma_utf8_concat(t1, "\r\n"@);
    lemma_utf8_concat(t2, "Content-Disposition: form-data; name=\""@);
    lemma_utf8_concat(t3, name);
    lemma_utf8_concat(t4, "\"\r\n\r\n"@);
    lemma_utf8_concat(t5, value);
    lemma_utf8_concat(t6, "\r\n"@);
}

/// Appends a text field to a multipart body buffer.
pub fn append_text_field(buf: &mut Vec<u8>, boundary: &str, name: &str, value: &str)
    ensures
        final(buf)@ == old(buf)@ + text_field_bytes(boundary@, name@, value@),
{
    let ghost start = buf@;
    push_str(buf, "--");
    push_str(buf, boundary);
    push_str(buf, "\r\n");
    push_str(buf, "Content-Disposition: form-data; name=\"");
    push_str(buf, name);
    push_str(buf, "\"\r\n\r\n");
    push_str(buf, value);
    push_str(buf, "\r\n");
    proof {
        lemma_text_field_bytes(boundary@, name@, value@);
        assert(buf@ =~= start + text_field_bytes(boundary@, name@, value@));
    }
}

proof fn lemma_file_head_bytes(
    boundary: Seq<char>,
    field_name: Seq<char>,
    filename: Seq<char>,
    content_type: Seq<char>,
)
    ensures
        utf8(file_head_text(boundary, field_name, filename, content_type)) == utf8("--"@)
            + utf8(boundary) + utf8("\r\n"@) + utf8("Content-Disposition: form-data; name=\""@)
            + utf8(field_name) + utf8("\"; filename=\""@) + utf8(filename) + utf8("\"\r\n"@)
            + utf8("Content-Type: "@) + utf8(content_type) + utf8("\r\n\r\n"@),
{
    let t1 = "--"@ + boundary;
    let t2 = t1 + "\r\n"@;
    let t3 = t2 + "Content-Disposition: form-data; name=\""@;
    let t4 = t3 + field_name;
    let t5 = t4 + "\"; filename=\""@;
    let t6 = t5 + filename;
    let t7 = t6 + "\"\r\n"@;
    let t8 = t7 + "Content-Type: "@;
    let t9 = t8 + content_type;
    lemma_utf8_concat("--"@, boundary);
    lemma_utf8_concat(t1, "\r\n"@);
    lemma_utf8_concat(t2, "Content-Disposition: form-data; name=\""@);
    lemma_utf8_concat(t3, field_name);
    lemma_utf8_concat(t4, "\"; filename=\""@);
    lemma_utf8_concat(t5, filename);
    lemma_utf8_concat(t6, "\"\r\n"@);
    lemma_utf8_concat(t7, "Content-Type: "@);
    lemma_utf8_concat(t8, content_type);
    lemma_utf8_concat(t9, "\r\n\r\n"@);
}

/// Appends the head of a file part.
fn append_file_head(
    buf: &mut Vec<u8>,
    boundary: &str,
    field_name: &str,
    filename: &str,
    content_type: &str,
)
    ensures
        final(buf)@ == old(buf)@ + utf8(
            file_head_text(boundary@, field_name@, filename@, content_type@),
        ),
{
    let ghost start = buf@;
    push_str(buf, "--");
    push_str(buf, boundary);
    push_str(buf, "\r\n");
    push_str(buf, "Content-Disposition: form-data; name=\"");
    push_str(buf, field_name);
    push_str(buf, "\"; filename=\"");
    push_str(buf, filename);
    push_str(buf, "\"\r\n");
    push_str(buf, "Content-Type: ");
    push_str(buf, content_type);
    push_str(buf, "\r\n\r\n");
    proof {
        lemma_file_head_bytes(boundary@, field_name@, filename@, content_type@);
        assert(buf@ =~= start + utf8(
            file_head_text(boundary@, field_name@, filename@, content_type@),
        ));
    }
}

/// Appends a file part to a multipart body buffer.
pub fn append_file_part(
    buf: &mut Vec<u8>,
    boundary: &str,
    field_name: &str,
    filename: &str,
    content_type: &str,
    data: &[u8],
)
    ensures
        final(buf)@ == old(buf)@ + file_part_bytes(
            boundary@,
            field_name@,
            filename@,
            content_type@,
            data@,
        ),
{
    let ghost start = buf@;
    append_file_head(buf, boundary, field_name, filename, content_type);
    push_bytes(buf, data);
    push_str(buf, "\r\n");
    assert(buf@ =~= start + file_part_bytes(
        boundary@,
        field_name@,
        filename@,
        content_type@,
        data@,
    ));
}

/// Appends the closing delimiter `--{boundary}--\r\n`.
pub fn append_closing(buf: &mut Vec<u8>, boundary: &str)
    ensures
        final(buf)@ == old(buf)@ + closing_bytes(boundary@),
{
    let ghost start = buf@;
    push_str(buf, "--");
    push_str(buf, boundary);
    push_str(buf, "--\r\n");
    proof {
        lemma_utf8_concat("--"@, boundary@);
        lemma_utf8_concat("--"@ + boundary@, "--\r\n"@);
        assert(buf@ =~= start + closing_bytes(boundary@));
    }
}

/// Appends a text field when the value is present.
pub fn append_opt_text_field(buf: &mut Vec<u8>, boundary: &str, name: &str, value: &Option<String>)
    ensures
        final(buf)@ == old(buf)@ + opt_field_bytes(boundary@, name@, opt_view(*value)),
{
    match value {
        Some(v) => append_text_field(buf, boundary, name, v.as_str()),
        None => {
            assert(buf@ =~= old(buf)@ + Seq::<u8>::empty());
        },
    }
}

/// A body made of one file part and the closing delimiter.
pub fn build_single_file_multipart(
    boundary: &str,
    field_name: &str,
    filename: &str,
    content_type: &str,
    data: &[u8],
) -> (body: Vec<u8>)
    ensures
        body@ == file_part_bytes(boundary@, field_name@, filename@, content_type@, data@)
            + closing_bytes(boundary@),
{
    let mut buf = Vec::new();
    append_file_part(&mut buf, boundary, field_name, filename, content_type, data);
    append_closing(&mut buf, boundary);
    assert(buf@ =~= file_part_bytes(boundary@, field_name@, filename@, content_type@, data@)
        + closing_bytes(boundary@));
    buf
}

/// The `Content-Type` header value for a multipart body with this boundary.
pub open spec fn content_type_text(boundary: Seq<char>) -> Seq<char> {
    "multipart/form-data; boundary="@ + boundary
}

/// `multipart/form-data; boundary={boundary}`.
pub fn multipart_content_type(boundary: &str) -> (s: String)
    ensures
        s@ == content_type_text(boundary@),
{
    let mut s = "multipart/form-data; boundary=".to_owned();
    s.append(boundary);
    s
}

/// `SystemTime::now()`: the current time, whatever the clock says.
#[verifier::external_body]
fn clock_now() -> std::time::SystemTime {
    std::time::SystemTime::now()
}

/// `SystemTime::duration_since(UNIX_EPOCH)`, or `None` when the time lies
/// before the epoch. Nothing is claimed of the value: it comes from the
/// clock.
#[verifier::external_body]
fn since_epoch(t: &std::time::SystemTime) -> Option<std::time::Duration> {
    match t.duration_since(std::time::UNIX_EPOCH) {
        Ok(d) => Some(d),
        Err(_) => None,
    }
}

/// The largest number of nanoseconds a `Duration` holds: `u64::MAX` whole
/// seconds and 999,999,999 nanoseconds.
pub open spec fn max_duration_nanos() -> nat {
    u64::MAX as nat * 1_000_000_000 + 999_999_999
}

/// `Duration::as_nanos`: the total number of nanoseconds, which the
/// documentation makes the whole seconds (`as_secs`, a `u64`) times 10^9
/// plus the fractional nanoseconds (`subsec_nanos`, below 10^9). The
/// contract claims only that bound; which duration it is stays unsaid, as a
/// `Duration` is opaque here.
#[verifier::external_body]
fn duration_nanos(d: &std::time::Duration) -> (r: u128)
    ensures
        r <= max_duration_nanos(),
{
    d.as_nanos()
}

/// Appends a text field when the value is present.
pub fn append_opt_str_field(buf: &mut Vec<u8>, boundary: &str, name: &str, value: Option<&str>)
    ensures
        final(buf)@ == old(buf)@ + opt_field_bytes(boundary@, name@, opt_str_view(value)),
{
    match value {
        Some(v) => append_text_field(buf, boundary, name, v),
        None => {
            assert(buf@ =~= old(buf)@ + Seq::<u8>::empty());
        },
    }
}

/// The decimal text of an optional number.
pub open spec fn opt_number_text(o: Option<u64>) -> Option<Seq<char>> {
    match o {
        Some(n) => Some(text::decimal_text(n as nat)),
        None => None,
    }
}

/// `true`/`false` for an optional flag.
pub open spec fn opt_bool_text(o: Option<bool>) -> Option<Seq<char>> {
    match o {
        Some(b) => Some(text::bool_text(b)),
        None => None,
    }
}

/// Appends a field with the decimal text of a number, when present.
pub fn append_opt_number_field(buf: &mut Vec<u8>, boundary: &str, name: &str, value: Option<u64>)
    ensures
        final(buf)@ == old(buf)@ + opt_field_bytes(boundary@, name@, opt_number_text(value)),
{
    match value {
        Some(n) => {
            let digits = text::decimal_string(n);
            append_text_field(buf, boundary, name, digits.as_str());
        },
        None => {
            assert(buf@ =~= old(buf)@ + Seq::<u8>::empty());
        },
    }
}

/// Appends a field with `true` or `false`, when the flag is present.
pub fn append_opt_bool_field(buf: &mut Vec<u8>, boundary: &str, name: &str, value: Option<bool>)
    ensures
        final(buf)@ == old(buf)@ + opt_field_bytes(boundary@, name@, opt_bool_text(value)),
{
    match value {
        Some(b) => append_text_field(buf, boundary, name, text::bool_str(b)),
        None => {
            assert(buf@ =~= old(buf)@ + Seq::<u8>::empty());
        },
    }
}

/// Appends a file part, when a file `(filename, content_type, data)` is
/// given.
pub fn append_opt_file_part(
    buf: &mut Vec<u8>,
    boundary: &str,
    field_name: &str,
    file: Option<(&str, &str, &[u8])>,
)
    ensures
        final(buf)@ == old(buf)@ + opt_file_bytes(boundary@, field_name@, file_view(file)),
{
    match file {
        Some((filename, ct, data)) => append_file_part(buf, boundary, field_name, filename, ct, data),
        None => {
            assert(buf@ =~= old(buf)@ + Seq::<u8>::empty());
        },
    }
}

/// The views of a list of strings.
pub open spec fn strings_view(v: Seq<String>) -> Seq<Seq<char>> {
    v.map_values(|s: String| s@)
}

/// One form field per value, in order, all with the same name.
pub open spec fn repeated_field_bytes(boundary: Seq<char>, name: Seq<char>, values: Seq<Seq<char>>) -> Seq<u8>
    decreases values.len(),
{
    if values.len() == 0 {
        seq![]
    } else {
        repeated_field_bytes(boundary, name, values.drop_last()) + text_field_bytes(
            boundary,
            name,
            values.last(),
        )
    }
}

/// Appends one form field per value, all with the same name.
pub fn append_repeated_field(buf: &mut Vec<u8>, boundary: &str, name: &str, values: &Vec<String>)
    ensures
        final(buf)@ == old(buf)@ + repeated_field_bytes(boundary@, name@, strings_view(values@)),
{
    let ghost start = buf@;
    let mut i: usize = 0;
    while i < values.len()
        invariant
            i <= values@.len(),
            buf@ == start + repeated_field_bytes(
                boundary@,
                name@,
                strings_view(values@.subrange(0, i as int)),
            ),
        decreases values@.len() - i,
    {
        append_text_field(buf, boundary, name, values[i].as_str());
        proof {
            let pre = strings_view(values@.subrange(0, i as int));
            let post = strings_view(values@.subrange(0, i + 1));
            assert(post.drop_last() =~= pre);
            assert(post.last() == values@[i as int]@);
        }
        i = i + 1;
    }
    assert(values@.subrange(0, values@.len() as int) =~= values@);
}

/// A request to send as `multipart/form-data`: the endpoint path, the
/// `Content-Type` header value (which names the boundary) and the body.
pub struct MultipartUpload {
    pub path: String,
    pub content_type: String,
    pub body: Vec<u8>,
}

/// `u` sends `body` to `path`, framed with `boundary`.
pub open spec fn is_upload(u: MultipartUpload, path: Seq<char>, boundary: Seq<char>, body: Seq<u8>) -> bool {
    &&& u.path@ == path
    &&& u.content_type@ == content_type_text(boundary)
    &&& u.body@ == body
}

/// A boundary the SDK generates: `----ElevenLabsSDK` and 32 hexadecimal
/// digits.
pub open spec fn is_sdk_boundary(b: Seq<char>) -> bool {
    exists|v: nat| b == boundary_text(text::hex_text(v, 32))
}

/// Nanoseconds since the Unix epoch by the system clock, or 0 when the
/// clock reads earlier than the epoch. The reading depends on the time; what
/// holds of every reading is that it fits in a `Duration`.
pub fn clock_nanos() -> (r: u128)
    ensures
        r <= max_duration_nanos(),
{
    let now = clock_now();
    let elapsed: Option<u128> = match since_epoch(&now) {
        Some(d) => Some(duration_nanos(&d)),
        None => None,
    };
    nanos_or_zero(elapsed)
}

/// The nanoseconds elapsed since the epoch, or 0 for a clock that reads
/// earlier than the epoch (`None`).
pub fn nanos_or_zero(elapsed: Option<u128>) -> (r: u128)
    ensures
        r == match elapsed {
            Some(n) => n,
            None => 0,
        },
{
    match elapsed {
        Some(n) => n,
        None => 0,
    }
}

/// A 32-digit lowercase hexadecimal rendering of `v`, as
/// `format!("{v:032x}")` gives it.
pub fn hex32(v: u128) -> (s: String)
    ensures
        s@ == text::hex_text(v as nat, 32),
        s@.len() == 32,
        forall|i: int| 0 <= i < 32 ==> text::is_hex_digit(#[trigger] s@[i]),
        text::hex_value(s@) == v as nat,
{
    proof {
        text::lemma_hex_text_digits(v as nat, 32);
        text::lemma_u128_fits_32_hex_digits(v);
        text::lemma_hex_text_round_trip(v as nat, 32);
    }
    text::hex_string(v, 32)
}

/// Generates a simple pseudo-random hex string for multipart boundaries: the
/// clock's nanoseconds since the epoch in 32 lowercase hexadecimal digits.
/// The text reads back as the clock reading (a `u128`), so distinct readings
/// give distinct texts (see `text::lemma_hex_text_injective`).
pub fn uuid_v4_simple() -> (s: String)
    ensures
        s@.len() == 32,
        forall|i: int| 0 <= i < 32 ==> text::is_hex_digit(#[trigger] s@[i]),
        exists|v: nat| s@ == text::hex_text(v, 32),
        text::hex_value(s@) <= u128::MAX,
        s@ == text::hex_text(text::hex_value(s@), 32),
{
    let n = clock_nanos();
    hex32(n)
}

/// The boundary that the SDK puts on its multipart bodies for a token.
pub open spec fn boundary_text(token: Seq<char>) -> Seq<char> {
    "----ElevenLabsSDK"@ + token
}

/// A fresh multipart boundary: `----ElevenLabsSDK` followed by a 32-digit
/// hexadecimal clock reading.
pub fn multipart_boundary() -> (s: String)
    ensures
        is_sdk_boundary(s@),
{
    let token = uuid_v4_simple();
    let mut s = "----ElevenLabsSDK".to_owned();
    s.append(token.as_str());
    s
}

/// Whether `part` occurs as a contiguous run of bytes in `body`.
pub open spec fn holds_part(body: Seq<u8>, part: Seq<u8>) -> bool {
    exists|i: int|
        0 <= i && i + part.len() <= body.len() && #[trigger] body.subrange(i, i + part.len()) == part
}

/// Whether `body` ends with `tail`.
pub open spec fn ends_with(body: Seq<u8>, tail: Seq<u8>) -> bool {
    tail.len() <= body.len() && body.subrange(body.len() - tail.len(), body.len() as int) == tail
}

/// A run of bytes holds itself.
pub broadcast proof fn lemma_holds_part_self(p: Seq<u8>)
    ensures
        #[trigger] holds_part(p, p),
{
    let z: int = 0;
    assert(p.subrange(z, z + p.len()) =~= p);
}

/// A run held by either side of a concatenation is held by the whole.
pub broadcast proof fn lemma_holds_part_concat(a: Seq<u8>, b: Seq<u8>, p: Seq<u8>)
    ensures
        (holds_part(a, p) || holds_part(b, p)) ==> #[trigger] holds_part(a + b, p),
{
    if holds_part(a, p) {
        let i = choose|i: int|
            0 <= i && i + p.len() <= a.len() && #[trigger] a.subrange(i, i + p.len()) == p;
        assert((a + b).subrange(i, i + p.len()) =~= a.subrange(i, i + p.len()));
    } else if holds_part(b, p) {
        let i = choose|i: int|
            0 <= i && i + p.len() <= b.len() && #[trigger] b.subrange(i, i + p.len()) == p;
        assert((a + b).subrange(a.len() + i, a.len() + i + p.len()) =~= b.subrange(i, i + p.len()));
    }
}

/// A concatenation ends with its second part.
pub broadcast proof fn lemma_ends_with_last(x: Seq<u8>, y: Seq<u8>)
    ensures
        #[trigger] ends_with(x + y, y),
{
    assert((x + y).subrange((x + y).len() - y.len(), (x + y).len() as int) =~= y);
}

/// What the second part of a concatenation ends with, the whole ends with.
pub broadcast proof fn lemma_ends_with_concat(x: Seq<u8>, y: Seq<u8>, t: Seq<u8>)
    ensures
        ends_with(y, t) ==> #[trigger] ends_with(x + y, t),
{
    if ends_with(y, t) {
        assert((x + y).subrange((x + y).len() - t.len(), (x + y).len() as int) =~= y.subrange(
            y.len() - t.len(),
            y.len() as int,
        ));
    }
}

/// Each value of a repeated field is sent as a field of that name.
pub proof fn lemma_repeated_field_holds_each(boundary: Seq<char>, name: Seq<char>, values: Seq<Seq<char>>, i: int)
    requires
        0 <= i < values.len(),
    ensures
        holds_part(repeated_field_bytes(boundary, name, values), text_field_bytes(boundary, name, values[i])),
    decreases values.len(),
{
    broadcast use lemma_holds_part_self, lemma_holds_part_concat;

    if i < values.len() - 1 {
        lemma_repeated_field_holds_each(boundary, name, values.drop_last(), i);
    }
}

/// `x + y + z` ends with `y + z`.
pub proof fn lemma_ends_with_last_two(x: Seq<u8>, y: Seq<u8>, z: Seq<u8>)
    ensures
        ends_with(x + y + z, y + z),
{
    let s = x + y + z;
    assert(s.subrange(s.len() - (y + z).len(), s.len() as int) =~= y + z);
}

/// Law: a body built as parts followed by the closing delimiter ends with
/// `--{boundary}--\r\n`.
pub proof fn lemma_body_ends_with_closing(parts: Seq<u8>, boundary: Seq<char>)
    ensures
        (parts + closing_bytes(boundary)).subrange(
            parts.len() as int,
            (parts.len() + closing_bytes(boundary).len()) as int,
        ) == closing_bytes(boundary),
{
    assert((parts + closing_bytes(boundary)).subrange(
        parts.len() as int,
        (parts.len() + closing_bytes(boundary).len()) as int,
    ) =~= closing_bytes(boundary));
}

} // verus!
