//! Configuration parsing: the values of the `KEY=value` lines of the
//! configuration text, and IPv4 addresses in dotted decimal.

use crate::configuration::CONFIG;
use crate::text::{find_sep, lemma_parts_from_unfold, next_sep, parse_uint, parse_unsigned, split_by};
use vstd::prelude::*;
use vstd::string::StringSliceAdditionalSpecFns;
use vstd::utf8::{
    encode_utf8_valid_utf8, is_char_boundary, is_continuation_byte, length_of_first_scalar,
    pop_first_scalar, valid_first_scalar, valid_utf8,
};

verus! {

/// Where the value of the first line from `start` on that begins with
/// `key` lies in `cfg`: from the end of the key to the end of the line
/// (before a `\r\n` or `\n`, or at the end of the text).
pub open spec fn config_value_range(cfg: Seq<u8>, key: Seq<u8>, start: int) -> Option<(int, int)>
    decreases cfg.len() - start,
{
    if start < 0 || start > cfg.len() {
        None
    } else {
        let e = find_sep(cfg, 10, start);
        let end = if e < cfg.len() && e > start && cfg[e - 1] == 13 {
            e - 1
        } else {
            e
        };
        if end - start >= key.len() && cfg.subrange(start, start + key.len()) == key {
            Some((start + key.len(), end))
        } else if e >= cfg.len() || e < start {
            None
        } else {
            config_value_range(cfg, key, e + 1)
        }
    }
}

/// The value of the first line of `cfg` that begins with `key`, or
/// `default` if no line does.
pub open spec fn config_lookup(cfg: Seq<u8>, key: Seq<u8>, default: Seq<u8>) -> Seq<u8> {
    match config_value_range(cfg, key, 0) {
        Some(r) => cfg.subrange(r.0, r.1),
        None => default,
    }
}

/// In valid UTF-8, every position next to an ASCII byte is a character
/// boundary.
proof fn lemma_ascii_boundary(b: Seq<u8>, i: int)
    requires
        valid_utf8(b),
        0 <= i <= b.len(),
        i == 0 || i == b.len() || b[i] < 0x80 || b[i - 1] < 0x80,
    ensures
        is_char_boundary(b, i),
    decreases b.len(),
{
    if i > 0 {
        assert(valid_first_scalar(b));
        let l = length_of_first_scalar(b);
        assert(l <= i) by {
            assert(1 <= l <= 4);
            assert(forall|k: int| 1 <= k < l ==> is_continuation_byte(#[trigger] b[k]));
        }
        let p = pop_first_scalar(b);
        assert(valid_utf8(p));
        if i - l > 0 {
            assert(p[i - l - 1] == b[i - 1]);
            if i < b.len() {
                assert(p[i - l] == b[i]);
            }
            lemma_ascii_boundary(p, i - l);
        }
    }
}

/// Whether `data` holds `key` from `start` on.
fn starts_with_at(data: &[u8], start: usize, key: &[u8]) -> (r: bool)
    requires
        start + key@.len() <= data@.len(),
    ensures
        r == (data@.subrange(start as int, start + key@.len()) == key@),
{
    let mut i: usize = 0;
    while i < key.len()
        invariant
            0 <= i <= key@.len(),
            start + key@.len() <= data@.len(),
            data@.len() == data.len(),
            forall|k: int| 0 <= k < i ==> data@[start + k] == key@[k],
        decreases key@.len() - i,
    {
        if data[start + i] != key[i] {
            assert(data@.subrange(start as int, start + key@.len())[i as int] != key@[i as int]);
            return false;
        }
        i = i + 1;
    }
    assert(data@.subrange(start as int, start + key@.len()) =~= key@);
    true
}

/// The value of the first line of `config` that begins with `key` (an
/// ASCII key), or `default` if no line does.
pub fn config_value(config: &'static str, key: &str, default: &'static str) -> (r: &'static str)
    requires
        key.is_ascii(),
    ensures
        r.spec_bytes() == config_lookup(config.spec_bytes(), key.spec_bytes(), default.spec_bytes()),
{
    broadcast use vstd::string::is_ascii_spec_bytes, vstd::utf8::is_ascii_chars_nat_bound;

    let bytes = config.as_bytes();
    let kb = key.as_bytes();
    let ghost cfg = bytes@;
    proof {
        encode_utf8_valid_utf8(config@);
        assert(forall|k: int| 0 <= k < kb@.len() ==> kb@[k] < 0x80);
    }
    let mut start: usize = 0;
    loop
        invariant
            bytes@ == cfg,
            cfg == config.spec_bytes(),
            kb@ == key.spec_bytes(),
            valid_utf8(cfg),
            forall|k: int| 0 <= k < kb@.len() ==> kb@[k] < 0x80,
            start <= cfg.len(),
            start == 0 || cfg[start - 1] == 10,
            config_value_range(cfg, kb@, 0) == config_value_range(cfg, kb@, start as int),
        decreases cfg.len() - start,
    {
        let e = next_sep(bytes, 10, start);
        proof {
            crate::text::lemma_find_sep_bounds(cfg, 10, start as int);
        }
        let end = if e < bytes.len() && e > start && bytes[e - 1] == 13 {
            e - 1
        } else {
            e
        };
        if end - start >= kb.len() && starts_with_at(bytes, start, kb) {
            let a = start + kb.len();
            proof {
                if kb@.len() > 0 {
                    assert(cfg.subrange(start as int, a as int)[kb@.len() - 1] == kb@[kb@.len()
                        - 1]);
                    assert(cfg[a - 1] < 0x80);
                }
                lemma_ascii_boundary(cfg, a as int);
            }
            let (_, rest) = config.split_at(a);
            let ghost rb = rest.spec_bytes();
            proof {
                encode_utf8_valid_utf8(rest@);
                assert(rb =~= cfg.subrange(a as int, cfg.len() as int));
                if end < cfg.len() {
                    assert(rb[end - a] == cfg[end as int]);
                }
                lemma_ascii_boundary(rb, end - a);
            }
            let (value, _) = rest.split_at(end - a);
            assert(value.spec_bytes() =~= cfg.subrange(a as int, end as int));
            return value;
        }
        if e >= bytes.len() {
            return default;
        }
        start = e + 1;
    }
}

/// Extracts the WiFi SSID from the configuration.
pub fn get_ssid() -> (r: &'static str)
    ensures
        r.spec_bytes() == config_lookup(
            CONFIG.spec_bytes(),
            "WIFI_NETWORK=".spec_bytes(),
            "YOUR_WIFI_SSID".spec_bytes(),
        ),
{
    proof {
        reveal_strlit("WIFI_NETWORK=");
    }
    config_value(CONFIG, "WIFI_NETWORK=", "YOUR_WIFI_SSID")
}

/// Extracts the WiFi password from the configuration.
pub fn get_wifi_password() -> (r: &'static str)
    ensures
        r.spec_bytes() == config_lookup(
            CONFIG.spec_bytes(),
            "WIFI_PASSWORD=".spec_bytes(),
            "YOUR_WIFI_PASSWORD".spec_bytes(),
        ),
{
    proof {
        reveal_strlit("WIFI_PASSWORD=");
    }
    config_value(CONFIG, "WIFI_PASSWORD=", "YOUR_WIFI_PASSWORD")
}

/// Extracts the KNX gateway IP address ("a.b.c.d") from the configuration.
pub fn get_knx_gateway_ip() -> (r: &'static str)
    ensures
        r.spec_bytes() == config_lookup(
            CONFIG.spec_bytes(),
            "KNX_GATEWAY_IP=".spec_bytes(),
            "192.168.1.10".spec_bytes(),
        ),
{
    proof {
        reveal_strlit("KNX_GATEWAY_IP=");
    }
    config_value(CONFIG, "KNX_GATEWAY_IP=", "192.168.1.10")
}

/// The address of a dotted text: with exactly four parts that are each a
/// number of 0-255, those numbers; on any other text, 192.168.1.10.
pub open spec fn parsed_ip(s: Seq<u8>) -> Seq<u8> {
    let parts = split_by(s, 46);
    if parts.len() == 4 && parse_unsigned(parts[0], 255) is Some && parse_unsigned(parts[1], 255)
        is Some && parse_unsigned(parts[2], 255) is Some && parse_unsigned(parts[3], 255) is Some {
        seq![
            parse_unsigned(parts[0], 255)->0 as u8,
            parse_unsigned(parts[1], 255)->0 as u8,
            parse_unsigned(parts[2], 255)->0 as u8,
            parse_unsigned(parts[3], 255)->0 as u8,
        ]
    } else {
        seq![192u8, 168u8, 1u8, 10u8]
    }
}

/// Parse an IP address string "a.b.c.d" into its octets; 192.168.1.10 on a
/// parse error (see [`parsed_ip`]).
pub fn parse_ip(ip_str: &str) -> (r: [u8; 4])
    ensures
        r@ == parsed_ip(ip_str.spec_bytes()),
{
    let b = ip_str.as_bytes();
    let ghost s = b@;
    let len = b.len();
    proof {
        lemma_parts_from_unfold(s, 46, 0);
    }
    let e0 = next_sep(b, 46u8, 0);
    if e0 >= len {
        let r = [192, 168, 1, 10];
        assert(r@ =~= parsed_ip(s));
        return r;
    }
    proof {
        lemma_parts_from_unfold(s, 46, e0 + 1);
    }
    let e1 = next_sep(b, 46u8, e0 + 1);
    if e1 >= len {
        let r = [192, 168, 1, 10];
        assert(r@ =~= parsed_ip(s));
        return r;
    }
    proof {
        lemma_parts_from_unfold(s, 46, e1 + 1);
    }
    let e2 = next_sep(b, 46u8, e1 + 1);
    if e2 >= len {
        let r = [192, 168, 1, 10];
        assert(r@ =~= parsed_ip(s));
        return r;
    }
    proof {
        lemma_parts_from_unfold(s, 46, e2 + 1);
    }
    let e3 = next_sep(b, 46u8, e2 + 1);
    if e3 < len {
        proof {
            lemma_parts_from_unfold(s, 46, e3 + 1);
        }
        assert(split_by(s, 46).len() > 4);
        let r = [192, 168, 1, 10];
        assert(r@ =~= parsed_ip(s));
        return r;
    }
    assert(split_by(s, 46).len() == 4);
    assert(split_by(s, 46)[0] == s.subrange(0, e0 as int));
    assert(split_by(s, 46)[1] == s.subrange(e0 + 1, e1 as int));
    assert(split_by(s, 46)[2] == s.subrange(e1 + 1, e2 as int));
    assert(split_by(s, 46)[3] == s.subrange(e2 + 1, e3 as int));
    let default: [u8; 4] = [192, 168, 1, 10];
    assert(default@ =~= seq![192u8, 168u8, 1u8, 10u8]);
    let a = match parse_uint(b, 0, e0, 255) {
        Some(v) => v as u8,
        None => return default,
    };
    let c = match parse_uint(b, e0 + 1, e1, 255) {
        Some(v) => v as u8,
        None => return default,
    };
    let d = match parse_uint(b, e1 + 1, e2, 255) {
        Some(v) => v as u8,
        None => return default,
    };
    let f = match parse_uint(b, e2 + 1, e3, 255) {
        Some(v) => v as u8,
        None => return default,
    };
    let r = [a, c, d, f];
    assert(r@ =~= parsed_ip(s));
    r
}

} // verus!
