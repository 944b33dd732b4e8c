//! The inline-image escape sequence: framing, header fields and payload.
use vstd::prelude::*;
use vstd::utf8::encode_utf8;

use crate::source::{opt_view, Image, ImageModel};
use crate::text::{
    decimal, has_prefix, lemma_decimal_reads_back, numeral_value, push_decimal, starts_with,
};

verus! {

/// The base64 text, URL-safe alphabet with padding, of `b`.
pub uninterp spec fn base64_url_safe_of(b: Seq<u8>) -> Seq<char>;

/// The base64 text, standard alphabet with padding, of `b`.
pub uninterp spec fn base64_standard_of(b: Seq<u8>) -> Seq<char>;

/// The padded base64 length of `n` bytes fits in a `usize`.
pub open spec fn base64_fits(n: nat) -> bool {
    4 * ((n + 2) / 3) <= usize::MAX
}

/// Relies on `base64::Engine::encode` with `BASE64_URL_SAFE`: the text
/// depends on the bytes alone. It panics only where the output length
/// overflows a `usize`, which `requires` rules out.
#[verifier::external_body]
fn encode_url_safe(b: &[u8]) -> (r: String)
    requires
        base64_fits(b@.len()),
    ensures
        r@ == base64_url_safe_of(b@),
{
    base64::Engine::encode(&base64::prelude::BASE64_URL_SAFE, b)
}

/// Relies on `base64::Engine::encode` with `BASE64_STANDARD`: the text
/// depends on the bytes alone. It panics only where the output length
/// overflows a `usize`, which `requires` rules out.
#[verifier::external_body]
fn encode_standard(b: &[u8]) -> (r: String)
    requires
        base64_fits(b@.len()),
    ensures
        r@ == base64_standard_of(b@),
{
    base64::Engine::encode(&base64::prelude::BASE64_STANDARD, b)
}

/// How the image is to be shown.
pub struct DisplayOptions {
    /// Width, passed on verbatim (`auto`, `N`, `Npx` or `N%`).
    pub width: Option<String>,
    /// Height, passed on verbatim.
    pub height: Option<String>,
    /// Keep the image's aspect ratio (false when stretching).
    pub preserve_aspect_ratio: bool,
    /// A hint at the file's type, passed on verbatim.
    pub file_type: Option<String>,
    /// Print the image's origin on a line of its own after the sequence.
    pub print_path: bool,
}

/// What a [`DisplayOptions`] stands for.
pub struct OptionsModel {
    pub width: Option<Seq<char>>,
    pub height: Option<Seq<char>>,
    pub preserve_aspect_ratio: bool,
    pub file_type: Option<Seq<char>>,
    pub print_path: bool,
}

impl View for DisplayOptions {
    type V = OptionsModel;

    open spec fn view(&self) -> OptionsModel {
        OptionsModel {
            width: opt_view(self.width),
            height: opt_view(self.height),
            preserve_aspect_ratio: self.preserve_aspect_ratio,
            file_type: opt_view(self.file_type),
            print_path: self.print_path,
        }
    }
}

/// Whether a `TERM` value (absent when unset) names a terminal multiplexer.
pub open spec fn is_multiplexer_term(term: Option<Seq<char>>) -> bool {
    term is Some && (starts_with(term->Some_0, "screen"@) || starts_with(term->Some_0, "tmux"@))
}

/// The bytes that open the sequence.
pub open spec fn opening(multiplexed: bool) -> Seq<char> {
    if multiplexed {
        "\x1bPtmux;\x1b\x1b]"@
    } else {
        "\x1b]"@
    }
}

/// The bytes that close the sequence.
pub open spec fn closing(multiplexed: bool) -> Seq<char> {
    if multiplexed {
        "\x07\x1b\\"@
    } else {
        "\x07"@
    }
}

/// `key` followed by `value`, or nothing where there is no value.
pub open spec fn optional_field(key: Seq<char>, value: Option<Seq<char>>) -> Seq<char> {
    match value {
        Some(v) => key + v,
        None => Seq::empty(),
    }
}

/// The name field: the UTF-8 bytes of the name in URL-safe base64.
pub open spec fn name_field(filename: Option<Seq<char>>) -> Seq<char> {
    match filename {
        Some(f) => ";name="@ + base64_url_safe_of(encode_utf8(f)),
        None => Seq::empty(),
    }
}

/// The value of the aspect-ratio field.
pub open spec fn aspect_flag(preserve: bool) -> Seq<char> {
    if preserve {
        "1"@
    } else {
        "0"@
    }
}

/// The size field: the exact byte count of the image.
pub open spec fn size_field(image: ImageModel) -> Seq<char> {
    "1337;File=inline=1;size="@ + decimal(image.data.len())
}

/// Everything between the opening and the `:` before the payload.
pub open spec fn header(image: ImageModel, opts: OptionsModel) -> Seq<char> {
    size_field(image) + name_field(image.filename) + optional_field(";width="@, opts.width)
        + optional_field(";height="@, opts.height) + ";preserveAspectRatio="@ + aspect_flag(
        opts.preserve_aspect_ratio,
    ) + optional_field(";type="@, opts.file_type)
}

/// The line that echoes the image's origin, where asked for and known.
pub open spec fn origin_line(image: ImageModel, opts: OptionsModel) -> Seq<char> {
    if opts.print_path && image.origin is Some {
        image.origin->Some_0 + "\n"@
    } else {
        Seq::empty()
    }
}

/// The whole output for one image: the framed sequence, a line break, and
/// the origin line where it is asked for.
pub open spec fn encoded(image: ImageModel, opts: OptionsModel, multiplexed: bool) -> Seq<char> {
    opening(multiplexed) + header(image, opts) + ":"@ + base64_standard_of(image.data) + closing(
        multiplexed,
    ) + "\n"@ + origin_line(image, opts)
}

/// The image can be encoded without overflowing a `usize`.
pub open spec fn encodable(image: ImageModel) -> bool {
    &&& base64_fits(image.data.len())
    &&& image.filename is Some ==> base64_fits(encode_utf8(image.filename->Some_0).len())
}

/// Whether a `TERM` value names a terminal multiplexer (`screen…` or
/// `tmux…`).
pub fn is_multiplexer(term: Option<&str>) -> (r: bool)
    ensures
        r == is_multiplexer_term(
            match term {
                Some(t) => Some(t@),
                None => None,
            },
        ),
{
    match term {
        Some(t) => has_prefix(t, "screen") || has_prefix(t, "tmux"),
        None => false,
    }
}

/// The opening bytes.
pub fn opening_sequence(multiplexed: bool) -> (r: &'static str)
    ensures
        r@ == opening(multiplexed),
{
    if multiplexed {
        "\x1bPtmux;\x1b\x1b]"
    } else {
        "\x1b]"
    }
}

/// The closing bytes.
pub fn closing_sequence(multiplexed: bool) -> (r: &'static str)
    ensures
        r@ == closing(multiplexed),
{
    if multiplexed {
        "\x07\x1b\\"
    } else {
        "\x07"
    }
}

/// Appends `key` and `value` to `out` where there is a value.
fn push_optional(out: &mut String, key: &str, value: &Option<String>)
    ensures
        final(out)@ == old(out)@ + optional_field(key@, opt_view(*value)),
{
    match value {
        Some(v) => {
            out.append(key);
            out.append(v.as_str());
            assert(final(out)@ =~= old(out)@ + (key@ + v@));
        },
        None => {
            assert(out@ =~= out@ + Seq::<char>::empty());
        },
    }
}

/// The text a terminal must receive to show `image` inline, with `opts`;
/// `term` is the value of `TERM`, absent when unset. Multiplexer framing is
/// decided once, from `term`, for both ends of the sequence.
pub fn encode(image: &Image, opts: &DisplayOptions, term: Option<&str>) -> (r: String)
    requires
        encodable(image@),
    ensures
        r@ == encoded(
            image@,
            opts@,
            is_multiplexer_term(
                match term {
                    Some(t) => Some(t@),
                    None => None,
                },
            ),
        ),
{
    let multiplexed = is_multiplexer(term);
    let mut out = String::new();
    out.append(opening_sequence(multiplexed));
    out.append("1337;File=inline=1;size=");
    push_decimal(&mut out, image.len());
    let ghost after_size = out@;
    assert(after_size =~= opening(multiplexed) + size_field(image@));
    match &image.filename {
        Some(name) => {
            out.append(";name=");
            let encoded_name = encode_url_safe(name.as_str().as_bytes());
            out.append(encoded_name.as_str());
        },
        None => {},
    }
    assert(out@ =~= after_size + name_field(image@.filename));
    push_optional(&mut out, ";width=", &opts.width);
    push_optional(&mut out, ";height=", &opts.height);
    out.append(";preserveAspectRatio=");
    proof {
        reveal_strlit("1");
        reveal_strlit("0");
    }
    if opts.preserve_aspect_ratio {
        out.append("1");
    } else {
        out.append("0");
    }
    push_optional(&mut out, ";type=", &opts.file_type);
    assert(out@ =~= opening(multiplexed) + header(image@, opts@));
    out.append(":");
    let payload = encode_standard(image.data.as_slice());
    out.append(payload.as_str());
    out.append(closing_sequence(multiplexed));
    out.append("\n");
    let ghost before_origin = out@;
    if opts.print_path {
        match &image.origin {
            Some(origin) => {
                out.append(origin.as_str());
                out.append("\n");
            },
            None => {},
        }
    }
    assert(out@ =~= before_origin + origin_line(image@, opts@));
    out
}

/// Whether `image` can be encoded: the base64 lengths of its bytes and of
/// its name fit in a `usize`.
pub fn is_encodable(image: &Image) -> (r: bool)
    ensures
        r == encodable(image@),
{
    if !fits_base64(image.data.len()) {
        return false;
    }
    match &image.filename {
        Some(name) => fits_base64(name.as_str().as_bytes().len()),
        None => true,
    }
}

fn fits_base64(n: usize) -> (r: bool)
    ensures
        r == base64_fits(n as nat),
{
    let groups: usize = if n % 3 == 0 {
        n / 3
    } else {
        n / 3 + 1
    };
    assert(groups == (n + 2) / 3);
    groups <= usize::MAX / 4
}

proof fn lemma_middle(a: Seq<char>, b: Seq<char>, c: Seq<char>)
    ensures
        (a + b + c).subrange(a.len() as int, (a.len() + b.len()) as int) == b,
{
    assert((a + b + c).subrange(a.len() as int, (a.len() + b.len()) as int) =~= b);
}

/// The size field of an encoded image states its exact byte count: the
/// digits that follow `size=` read back as the length of the data.
pub proof fn lemma_size_is_data_length(image: ImageModel, opts: OptionsModel, multiplexed: bool)
    ensures
        ({
            let start = opening(multiplexed).len() + "1337;File=inline=1;size="@.len();
            let digits = decimal(image.data.len());
            &&& encoded(image, opts, multiplexed).subrange(
                start as int,
                (start + digits.len()) as int,
            ) == digits
            &&& numeral_value(digits) == image.data.len()
        }),
{
    let a = opening(multiplexed) + "1337;File=inline=1;size="@;
    let b = decimal(image.data.len());
    let rest = encoded(image, opts, multiplexed).subrange(
        (a.len() + b.len()) as int,
        encoded(image, opts, multiplexed).len() as int,
    );
    assert(encoded(image, opts, multiplexed) =~= a + b + rest);
    lemma_middle(a, b, rest);
    lemma_decimal_reads_back(image.data.len());
}

/// Both ends of an encoded image use the same framing, chosen by `TERM`
/// alone: the multiplexer passthrough form at both ends, or the plain form
/// at both ends.
pub proof fn lemma_framing_consistent(image: ImageModel, opts: OptionsModel, term: Option<Seq<char>>)
    ensures
        ({
            let m = is_multiplexer_term(term);
            let e = encoded(image, opts, m);
            let close_at = opening(m).len() + header(image, opts).len() + 1 + base64_standard_of(
                image.data,
            ).len();
            &&& starts_with(e, opening(m))
            &&& e.subrange(close_at as int, (close_at + closing(m).len()) as int) == closing(m)
            &&& (opening(m) == "\x1bPtmux;\x1b\x1b]"@ <==> m)
            &&& (closing(m) == "\x07\x1b\\"@ <==> m)
        }),
{
    let m = is_multiplexer_term(term);
    let e = encoded(image, opts, m);
    let a = opening(m) + header(image, opts) + ":"@ + base64_standard_of(image.data);
    let rest = "\n"@ + origin_line(image, opts);
    reveal_strlit(":");
    reveal_strlit("\x1bPtmux;\x1b\x1b]");
    reveal_strlit("\x1b]");
    reveal_strlit("\x07\x1b\\");
    reveal_strlit("\x07");
    assert(e =~= a + closing(m) + rest);
    lemma_middle(a, closing(m), rest);
    assert(e.subrange(0, opening(m).len() as int) =~= opening(m));
    assert("\x1bPtmux;\x1b\x1b]"@ != "\x1b]"@);
    assert("\x07\x1b\\"@ != "\x07"@);
}

/// The aspect-ratio field is in every encoded image, and its value is `0`
/// exactly when stretching was asked for, `1` otherwise.
pub proof fn lemma_aspect_ratio_field(image: ImageModel, opts: OptionsModel, multiplexed: bool)
    ensures
        ({
            let field = ";preserveAspectRatio="@ + aspect_flag(opts.preserve_aspect_ratio);
            let at = opening(multiplexed).len() + size_field(image).len() + name_field(
                image.filename,
            ).len() + optional_field(";width="@, opts.width).len() + optional_field(
                ";height="@,
                opts.height,
            ).len();
            &&& encoded(image, opts, multiplexed).subrange(at as int, (at + field.len()) as int)
                == field
            &&& (aspect_flag(opts.preserve_aspect_ratio) == "0"@ <==> !opts.preserve_aspect_ratio)
            &&& (aspect_flag(opts.preserve_aspect_ratio) == "1"@ <==> opts.preserve_aspect_ratio)
        }),
{
    let a = opening(multiplexed) + size_field(image) + name_field(image.filename) + optional_field(
        ";width="@,
        opts.width,
    ) + optional_field(";height="@, opts.height);
    let field = ";preserveAspectRatio="@ + aspect_flag(opts.preserve_aspect_ratio);
    let e = encoded(image, opts, multiplexed);
    let rest = e.subrange((a.len() + field.len()) as int, e.len() as int);
    assert(e =~= a + field + rest);
    lemma_middle(a, field, rest);
    reveal_strlit("0");
    reveal_strlit("1");
    assert("0"@[0] != "1"@[0]);
}

} // verus!
