//! Brand customization: brand info derived from the `.aiapp` manifest, overridable from
//! the command line, and the brand's primary color.

use vstd::prelude::*;

use crate::format::manifest::AppManifest;
use crate::text::{
    chars_of, extend_chars, extend_str, owned, replace_char, replace_char_chars, string_from_chars,
    trim, trim_chars,
};

verus! {

/// Brand info (the "face" an app presents to the outside world).
#[derive(Debug, Clone)]
pub struct Brand {
    /// Display name (brand name). Defaults to the manifest `name`.
    pub name: String,
    /// Unique identifier (e.g. `com.example.hello`). Defaults to `aiapp.<app_id>`.
    pub identifier: String,
    /// App version (semantic). Defaults to the manifest `version`.
    pub version: String,
    /// App description.
    pub description: String,
    /// Author / developer.
    pub author: String,
    /// Homepage / user custom domain.
    pub homepage: Option<String>,
    /// Optional custom icon path.
    pub icon: Option<String>,
}

/// Brand fields overridable from the command line (`None` = use the default).
#[derive(Debug, Clone, Default)]
pub struct BrandOverrides {
    pub name: Option<String>,
    pub identifier: Option<String>,
    pub version: Option<String>,
    pub description: Option<String>,
    pub author: Option<String>,
    pub homepage: Option<String>,
    pub icon: Option<String>,
}

/// The identifier segment derived from an app id: `app_12345678` becomes `app12345678`.
pub open spec fn default_identifier_of(app_id: Seq<char>) -> Seq<char> {
    replace_char(app_id, '_', ""@)
}

/// Derive a valid identifier segment from the app_id (underscores removed).
pub fn default_identifier(m: &AppManifest) -> (s: String)
    ensures
        s@ == default_identifier_of(m.app_id@),
{
    string_from_chars(&replace_char_chars(&chars_of(m.app_id.as_str()), '_', ""))
}

pub open spec fn is_ident_char(c: char) -> bool {
    ('a' <= c && c <= 'z') || ('0' <= c && c <= '9')
}

/// Identifier validity, `^[a-z0-9]+(\.[a-z0-9]+)+$` (reverse-DNS style): lower-case ASCII
/// letters and digits in at least two non-empty dot-separated segments.
pub open spec fn is_valid_identifier(id: Seq<char>) -> bool {
    &&& id.len() > 0
    &&& forall|i: int| 0 <= i < id.len() ==> is_ident_char(#[trigger] id[i]) || id[i] == '.'
    &&& id[0] != '.'
    &&& id.last() != '.'
    &&& forall|i: int| 0 <= i < id.len() - 1 ==> !(#[trigger] id[i] == '.' && id[i + 1] == '.')
    &&& exists|i: int| 0 <= i < id.len() && #[trigger] id[i] == '.'
}

/// Identifier validity (reverse-DNS style).
pub fn valid_identifier(id: &str) -> (b: bool)
    ensures
        b == is_valid_identifier(id@),
{
    let v = chars_of(id);
    let n = v.len();
    if n == 0 || v[0] == '.' || v[n - 1] == '.' {
        return false;
    }
    let mut dots: usize = 0;
    let mut i: usize = 0;
    while i < n
        invariant
            n == v@.len(),
            v@ == id@,
            n > 0,
            i <= n,
            forall|j: int| 0 <= j < i ==> is_ident_char(#[trigger] v@[j]) || v@[j] == '.',
            forall|j: int| 0 <= j < i && j < n - 1 ==> !(#[trigger] v@[j] == '.' && v@[j + 1] == '.'),
            dots > 0 <==> exists|j: int| 0 <= j < i && #[trigger] v@[j] == '.',
            dots <= i,
        decreases n - i,
    {
        let c = v[i];
        if !(('a' <= c && c <= 'z') || ('0' <= c && c <= '9') || c == '.') {
            assert(!(is_ident_char(id@[i as int]) || id@[i as int] == '.'));
            assert(!is_valid_identifier(id@));
            return false;
        }
        if c == '.' {
            if i + 1 < n && v[i + 1] == '.' {
                assert(id@[i as int] == '.' && id@[i + 1] == '.');
                assert(!is_valid_identifier(id@));
                return false;
            }
            dots = dots + 1;
        }
        i = i + 1;
    }
    dots > 0
}

pub open spec fn opt_view(o: Option<String>) -> Option<Seq<char>> {
    match o {
        Some(s) => Some(s@),
        None => None,
    }
}

pub open spec fn or_else(o: Option<String>, d: Seq<char>) -> Seq<char> {
    match o {
        Some(s) => s@,
        None => d,
    }
}

/// The brand derived from a manifest and overrides: each override wins over the
/// manifest value / default.
pub open spec fn brand_fields_hold(b: Brand, m: AppManifest, o: BrandOverrides) -> bool {
    &&& b.name@ == or_else(o.name, m.name@)
    &&& b.identifier@ == or_else(o.identifier, "aiapp."@ + default_identifier_of(m.app_id@))
    &&& b.version@ == or_else(o.version, m.version@)
    &&& b.description@ == or_else(o.description, m.description@)
    &&& b.author@ == or_else(o.author, ""@)
    &&& opt_view(b.homepage) == opt_view(o.homepage)
    &&& opt_view(b.icon) == opt_view(o.icon)
}

fn copy_opt(o: &Option<String>) -> (r: Option<String>)
    ensures
        opt_view(r) == opt_view(*o),
{
    match o {
        Some(s) => Some(s.clone()),
        None => None,
    }
}

fn pick(o: &Option<String>, d: &str) -> (s: String)
    ensures
        s@ == or_else(*o, d@),
{
    match o {
        Some(v) => v.clone(),
        None => owned(d),
    }
}

/// The error for an invalid identifier.
pub open spec fn invalid_identifier_message(id: Seq<char>) -> Seq<char> {
    "Invalid identifier `"@ + id
        + "`: should look like com.example.hello (lowercase alphanumeric + dot-separated segments)"@
}

impl Brand {
    /// Build a brand from a manifest and optional overrides. Fields that are `None` in
    /// `overrides` fall back to the manifest / defaults. The identifier must be valid and
    /// the name must not be blank.
    pub fn from_manifest(m: &AppManifest, overrides: &BrandOverrides) -> (r: Result<Self, String>)
        ensures
            ({
                let id = or_else(overrides.identifier, "aiapp."@ + default_identifier_of(m.app_id@));
                let name = or_else(overrides.name, m.name@);
                if !is_valid_identifier(id) {
                    r matches Err(e) && e@ == invalid_identifier_message(id)
                } else if trim(name).len() == 0 {
                    r matches Err(e) && e@ == "Brand name must not be empty"@
                } else {
                    r matches Ok(b) && brand_fields_hold(b, *m, *overrides)
                }
            }),
    {
        let name = pick(&overrides.name, m.name.as_str());
        let identifier = match &overrides.identifier {
            Some(v) => v.clone(),
            None => {
                let mut id = chars_of("aiapp.");
                let d = default_identifier(m);
                extend_str(&mut id, d.as_str());
                string_from_chars(&id)
            },
        };
        let version = pick(&overrides.version, m.version.as_str());
        let description = pick(&overrides.description, m.description.as_str());
        let author = pick(&overrides.author, "");
        let homepage = copy_opt(&overrides.homepage);
        let icon = copy_opt(&overrides.icon);
        if !valid_identifier(identifier.as_str()) {
            let mut msg = chars_of("Invalid identifier `");
            extend_str(&mut msg, identifier.as_str());
            extend_str(
                &mut msg,
                "`: should look like com.example.hello (lowercase alphanumeric + dot-separated segments)",
            );
            return Err(string_from_chars(&msg));
        }
        if trim_chars(&chars_of(name.as_str())).len() == 0 {
            return Err(owned("Brand name must not be empty"));
        }
        Ok(Brand { name, identifier, version, description, author, homepage, icon })
    }

    /// Derive a stable primary color from the brand name.
    pub fn color(&self) -> (c: (u8, u8, u8))
        ensures
            c == brand_color(vstd::utf8::encode_utf8(self.name@)),
    {
        color_from_name(self.name.as_str())
    }
}

/// 32-bit FNV-1a offset basis and prime, applied in 64-bit wrapping arithmetic.
pub open spec fn name_hash(bytes: Seq<u8>) -> u64
    decreases bytes.len(),
{
    if bytes.len() == 0 {
        0x811c9dc5u64
    } else {
        (name_hash(bytes.drop_last()) ^ (bytes.last() as u64)).wrapping_mul(0x01000193u64)
    }
}

/// `n / d` rounded to the nearest integer, halves up (`n >= 0`, `d > 0`).
pub open spec fn round_div(n: int, d: int) -> int {
    (2 * n + d) / (2 * d)
}

/// The RGB color (each channel rounded to the nearest of 0..=255) of the HSL color with hue
/// `18 + j` degrees, saturation 55% and lightness `(45 + k)`%. All quantities are in units
/// of 1/600000: lightness `L`, chroma `C = (1 - |2L - 1|) * S`, `X = C * hue / 60` (the hue
/// lies in the first sixth of the circle) and `m = L - C / 2`; the color is
/// `(C + m, X + m, m)`.
pub open spec fn hsl_color(j: int, k: int) -> (u8, u8, u8) {
    let a = if 2 * k >= 10 {
        2 * k - 10
    } else {
        10 - 2 * k
    };
    let l = 6000 * (45 + k);
    let c = 3300 * (100 - a);
    let x = 55 * (100 - a) * (18 + j);
    let m = l - c / 2;
    (
        round_div(255 * (c + m), 600000) as u8,
        round_div(255 * (x + m), 600000) as u8,
        round_div(255 * m, 600000) as u8,
    )
}

/// The brand color of a name (given by its UTF-8 bytes): hue index `hash % 18`,
/// lightness index `(hash >> 16) % 20`.
pub open spec fn brand_color(bytes: Seq<u8>) -> (u8, u8, u8) {
    let h = name_hash(bytes);
    hsl_color((h % 18) as int, ((h >> 16u64) % 20) as int)
}

proof fn lemma_round_div_mono(n1: int, n2: int)
    requires
        n1 <= n2,
    ensures
        round_div(n1, 600000) <= round_div(n2, 600000),
{
    vstd::arithmetic::div_mod::lemma_div_is_ordered(2 * n1 + 600000, 2 * n2 + 600000, 1200000);
}

proof fn lemma_round_div_step(n1: int, n2: int)
    requires
        n1 + 1200000 <= n2,
    ensures
        round_div(n1, 600000) < round_div(n2, 600000),
{
    let a = 2 * n1 + 600000;
    vstd::arithmetic::div_mod::lemma_div_plus_one(a, 1200000);
    vstd::arithmetic::div_mod::lemma_div_is_ordered(1200000 + a, 2 * n2 + 600000, 1200000);
}

proof fn lemma_round_div_range(n: int)
    requires
        0 <= n <= 255 * 600000,
    ensures
        0 <= round_div(n, 600000) <= 255,
{
}

/// For every hue and lightness index in range, the color is a warm one: red is the
/// strongest channel and above blue, and green lies between them.
proof fn lemma_hsl_warm(j: int, k: int)
    requires
        0 <= j < 18,
        0 <= k < 20,
    ensures
        hsl_color(j, k).0 > hsl_color(j, k).2,
        hsl_color(j, k).0 >= hsl_color(j, k).1,
        hsl_color(j, k).1 >= hsl_color(j, k).2,
{
    let a = if 2 * k >= 10 {
        2 * k - 10
    } else {
        10 - 2 * k
    };
    let l = 6000 * (45 + k);
    let c = 3300 * (100 - a);
    let x = 55 * (100 - a) * (18 + j);
    let m = l - c / 2;
    assert(0 <= a <= 28);
    assert(x <= c) by (nonlinear_arith)
        requires
            x == 55 * (100 - a) * (18 + j),
            c == 3300 * (100 - a),
            0 <= 18 + j <= 35,
            100 - a >= 72,
    ;
    assert(x >= 0) by (nonlinear_arith)
        requires
            x == 55 * (100 - a) * (18 + j),
            0 <= 18 + j,
            100 - a >= 72,
    ;
    assert(m >= 0 && c + m <= 600000);
    lemma_round_div_range(255 * (c + m));
    lemma_round_div_range(255 * (x + m));
    lemma_round_div_range(255 * m);
    lemma_round_div_mono(255 * (x + m), 255 * (c + m));
    lemma_round_div_mono(255 * m, 255 * (x + m));
    lemma_round_div_step(255 * m, 255 * (c + m));
}

/// Every brand color is warm: red above blue, and green between them.
pub proof fn lemma_brand_color_warm(bytes: Seq<u8>)
    ensures
        brand_color(bytes).0 > brand_color(bytes).2,
        brand_color(bytes).0 >= brand_color(bytes).1,
        brand_color(bytes).1 >= brand_color(bytes).2,
{
    let h = name_hash(bytes);
    lemma_hsl_warm((h % 18) as int, ((h >> 16u64) % 20) as int);
}

/// Derive a stable, readable primary color by hashing the name.
pub fn color_from_name(name: &str) -> (c: (u8, u8, u8))
    ensures
        c == brand_color(vstd::utf8::encode_utf8(name@)),
{
    let bytes = name.as_bytes();
    let mut h: u64 = 0x811c9dc5;
    let mut i: usize = 0;
    while i < bytes.len()
        invariant
            i <= bytes@.len(),
            h == name_hash(bytes@.subrange(0, i as int)),
        decreases bytes.len() - i,
    {
        assert(bytes@.subrange(0, i + 1).drop_last() =~= bytes@.subrange(0, i as int));
        h = (h ^ (bytes[i] as u64)).wrapping_mul(0x01000193);
        i = i + 1;
    }
    assert(bytes@.subrange(0, bytes@.len() as int) =~= bytes@);
    let j: u64 = h % 18;
    let k: u64 = (h >> 16) % 20;
    let a: u64 = if 2 * k >= 10 {
        2 * k - 10
    } else {
        10 - 2 * k
    };
    let l: u64 = 6000 * (45 + k);
    let chroma: u64 = 3300 * (100 - a);
    let s: u64 = 100 - a;
    assert(55 * s * (18 + j) <= 192500) by (nonlinear_arith)
        requires
            s <= 100,
            j < 18,
    ;
    let x: u64 = 55 * s * (18 + j);
    let m: u64 = l - chroma / 2;
    let r: u64 = (2 * (255 * (chroma + m)) + 600000) / 1200000;
    let g: u64 = (2 * (255 * (x + m)) + 600000) / 1200000;
    let b: u64 = (2 * (255 * m) + 600000) / 1200000;
    proof {
        assert(r <= 255 && g <= 255 && b <= 255) by (nonlinear_arith)
            requires
                j < 18,
                k < 20,
                a <= 28,
                l == 6000 * (45 + k),
                chroma == 3300 * (100 - a),
                x == 55 * (100 - a) * (18 + j),
                x <= 192500,
                m == l - chroma / 2,
                r == (2 * (255 * (chroma + m)) + 600000) / 1200000,
                g == (2 * (255 * (x + m)) + 600000) / 1200000,
                b == (2 * (255 * m) + 600000) / 1200000,
        ;
    }
    (r as u8, g as u8, b as u8)
}

} // verus!
