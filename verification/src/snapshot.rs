//! The persisted snapshot of a resolved configuration: a canonical JSON
//! rendering of the aggregate, and the strict reader for it.  Writing an
//! aggregate and reading the text back yields the same aggregate; the
//! round trip is proved below.

use vstd::prelude::*;

use crate::config::ApiConfig;
use crate::config::ApiConfigV;
use crate::config::Config;
use crate::config::ConfigV;
use crate::config::FileConfig;
use crate::config::FileConfigV;
use crate::config::MediaPolicy;
use crate::config::PostPolicy;
use crate::text::all_digits;
use crate::text::chars_of;
use crate::text::dec_digits;
use crate::text::digits_val;
use crate::text::is_digit;
use crate::text::lemma_dec_digits;
use crate::text::lemma_digits_val_nonneg;
use crate::text::lemma_digits_val_push_ge;
use crate::text::push_dec;
use crate::text::string_of;

verus! {

/// A string value with `"` and `\` escaped by a backslash.
pub open spec fn esc(v: Seq<char>) -> Seq<char>
    decreases v.len(),
{
    if v.len() == 0 {
        Seq::empty()
    } else {
        let head: Seq<char> = if v[0] == '"' || v[0] == '\\' {
            seq!['\\', v[0]]
        } else {
            seq![v[0]]
        };
        head + esc(v.skip(1))
    }
}

/// A string value as it stands in the snapshot: quoted and escaped.
pub open spec fn enc_str(v: Seq<char>) -> Seq<char> {
    seq!['"'] + (esc(v) + seq!['"'])
}

pub proof fn lemma_esc_append(a: Seq<char>, b: Seq<char>)
    ensures
        esc(a + b) == esc(a) + esc(b),
    decreases a.len(),
{
    if a.len() == 0 {
        assert(a + b =~= b);
        assert(esc(a) + esc(b) =~= esc(b));
    } else {
        lemma_esc_append(a.skip(1), b);
        assert((a + b).skip(1) =~= a.skip(1) + b);
        assert(a + b =~= a + b);
        assert((a + b)[0] == a[0]);
        let head: Seq<char> = if a[0] == '"' || a[0] == '\\' {
            seq!['\\', a[0]]
        } else {
            seq![a[0]]
        };
        assert(esc(a + b) == head + esc((a + b).skip(1)));
        assert(head + (esc(a.skip(1)) + esc(b)) =~= (head + esc(a.skip(1))) + esc(b));
    }
}

/// Scans the body of a quoted string: the unescaped content up to the
/// closing quote, and what follows that quote.
pub open spec fn scan_qstr(s: Seq<char>) -> Option<(Seq<char>, Seq<char>)>
    decreases s.len(),
{
    if s.len() == 0 {
        Option::None
    } else if s[0] == '"' {
        Option::Some((Seq::empty(), s.skip(1)))
    } else if s[0] == '\\' {
        if s.len() < 2 {
            Option::None
        } else {
            match scan_qstr(s.skip(2)) {
                Option::None => Option::None,
                Option::Some(p) => Option::Some((seq![s[1]] + p.0, p.1)),
            }
        }
    } else {
        match scan_qstr(s.skip(1)) {
            Option::None => Option::None,
            Option::Some(p) => Option::Some((seq![s[0]] + p.0, p.1)),
        }
    }
}

/// Reads a quoted string from the front of `s`.
pub open spec fn parse_qstr(s: Seq<char>) -> Option<(Seq<char>, Seq<char>)> {
    if s.len() > 0 && s[0] == '"' {
        scan_qstr(s.skip(1))
    } else {
        Option::None
    }
}

/// Scanning what `esc` produced recovers the original value exactly.
pub proof fn lemma_scan_esc(v: Seq<char>, rest: Seq<char>)
    ensures
        scan_qstr(esc(v) + (seq!['"'] + rest)) == Option::Some((v, rest)),
    decreases v.len(),
{
    let s = esc(v) + (seq!['"'] + rest);
    if v.len() == 0 {
        assert(s =~= seq!['"'] + rest);
        assert(s[0] == '"');
        assert(s.skip(1) =~= rest);
    } else {
        lemma_scan_esc(v.skip(1), rest);
        let c = v[0];
        if c == '"' || c == '\\' {
            assert(esc(v) == seq!['\\', c] + esc(v.skip(1)));
            assert(s[0] == '\\');
            assert(s.len() >= 2);
            assert(s[1] == c);
            assert(s.skip(2) =~= esc(v.skip(1)) + (seq!['"'] + rest));
            assert(seq![c] + v.skip(1) =~= v);
        } else {
            assert(esc(v) == seq![c] + esc(v.skip(1)));
            assert(s[0] == c);
            assert(s.skip(1) =~= esc(v.skip(1)) + (seq!['"'] + rest));
            assert(seq![c] + v.skip(1) =~= v);
        }
    }
}

/// Reading a quoted, escaped string recovers the original value exactly.
pub proof fn lemma_parse_qstr(v: Seq<char>, rest: Seq<char>)
    ensures
        parse_qstr(enc_str(v) + rest) == Option::Some((v, rest)),
{
    let s = enc_str(v) + rest;
    assert(s[0] == '"');
    assert(s.skip(1) =~= esc(v) + (seq!['"'] + rest));
    lemma_scan_esc(v, rest);
}

/// How many leading characters of `s` are decimal digits.
pub open spec fn digit_prefix_len(s: Seq<char>) -> int
    decreases s.len(),
{
    if s.len() > 0 && is_digit(s[0]) {
        1 + digit_prefix_len(s.skip(1))
    } else {
        0
    }
}

/// Reads a decimal number from the front of `s`: at least one digit, and
/// a value that fits in `u64`.
pub open spec fn parse_num(s: Seq<char>) -> Option<(u64, Seq<char>)> {
    let k = digit_prefix_len(s);
    if k == 0 {
        Option::None
    } else {
        let v = digits_val(s.take(k));
        if 0 <= v <= u64::MAX {
            Option::Some((v as u64, s.skip(k)))
        } else {
            Option::None
        }
    }
}

/// A digit run followed by a non-digit splits exactly at the boundary.
pub proof fn lemma_digit_prefix(a: Seq<char>, b: Seq<char>)
    requires
        all_digits(a),
        b.len() == 0 || !is_digit(b[0]),
    ensures
        digit_prefix_len(a + b) == a.len(),
        (a + b).take(a.len() as int) == a,
        (a + b).skip(a.len() as int) == b,
    decreases a.len(),
{
    if a.len() == 0 {
        assert(a + b =~= b);
        assert((a + b).take(0) =~= a);
        assert((a + b).skip(0) =~= b);
    } else {
        assert(is_digit(a[0]));
        assert((a + b)[0] == a[0]);
        assert(all_digits(a.skip(1)));
        lemma_digit_prefix(a.skip(1), b);
        assert((a + b).skip(1) =~= a.skip(1) + b);
        assert((a + b).take(a.len() as int) =~= a);
        assert((a + b).skip(a.len() as int) =~= b);
    }
}

/// Reading the decimal rendering of `n` recovers `n` exactly.
pub proof fn lemma_parse_num(n: u64, rest: Seq<char>)
    requires
        rest.len() == 0 || !is_digit(rest[0]),
    ensures
        parse_num(dec_digits(n as int) + rest) == Option::Some((n, rest)),
{
    lemma_dec_digits(n as int);
    lemma_digit_prefix(dec_digits(n as int), rest);
}

/// Consumes a fixed literal from the front of `s`.
pub open spec fn expect(s: Seq<char>, lit: Seq<char>) -> Option<Seq<char>> {
    if lit.len() <= s.len() && s.take(lit.len() as int) == lit {
        Option::Some(s.skip(lit.len() as int))
    } else {
        Option::None
    }
}

pub proof fn lemma_expect(lit: Seq<char>, rest: Seq<char>)
    ensures
        expect(lit + rest, lit) == Option::Some(rest),
{
    assert((lit + rest).take(lit.len() as int) =~= lit);
    assert((lit + rest).skip(lit.len() as int) =~= rest);
}

/// The credentials section as it stands in the snapshot.
pub open spec fn enc_api(a: ApiConfigV) -> Seq<char> {
    "{\"id\":"@ + (dec_digits(a.id as int) + (",\"secret\":"@ + (enc_str(a.secret) + (",\"token\":"@
        + (enc_str(a.token) + "}"@)))))
}

/// The paths section as it stands in the snapshot.
pub open spec fn enc_file(f: FileConfigV) -> Seq<char> {
    "{\"seed\":"@ + (dec_digits(f.seed as int) + (",\"db\":"@ + (enc_str(f.db) + (",\"log\":"@ + (
    enc_str(f.log) + (",\"media\":"@ + (enc_str(f.media) + "}"@)))))))
}

/// The posting-policy section as it stands in the snapshot.
pub open spec fn enc_policy(p: PostPolicy) -> Seq<char> {
    "{\"interval\":"@ + (dec_digits(p.interval as int) + (",\"restrict_dislike_limit\":"@ + (
    dec_digits(p.restrict_dislike_limit as int) + (",\"delete_dislike_limit\":"@ + (dec_digits(
        p.delete_dislike_limit as int,
    ) + (",\"pin_like_limit\":"@ + (dec_digits(p.pin_like_limit as int) + (",\"auto_delete_cnt\":"@
        + (dec_digits(p.auto_delete_cnt as int) + "}"@)))))))))
}

/// The media-policy section as it stands in the snapshot.
pub open spec fn enc_media(m: MediaPolicy) -> Seq<char> {
    "{\"max_media_size\":"@ + (dec_digits(m.max_media_size as int) + "}"@)
}

/// The whole aggregate as it stands in the snapshot file.
pub open spec fn spec_encode(c: ConfigV) -> Seq<char> {
    "{\"owner_id\":"@ + (dec_digits(c.owner_id as int) + (",\"name\":"@ + (enc_str(c.name) + (
    ",\"api\":"@ + (enc_api(c.api) + (",\"file\":"@ + (enc_file(c.file) + (",\"policy\":"@ + (
    enc_policy(c.policy) + (",\"media\":"@ + (enc_media(c.media) + "}"@)))))))))))
}

/// Reads the credentials section from the front of `s`.
pub open spec fn dec_api(s: Seq<char>) -> Option<(ApiConfigV, Seq<char>)> {
    match expect(s, "{\"id\":"@) {
        Option::None => Option::None,
        Option::Some(s1) => match parse_num(s1) {
            Option::None => Option::None,
            Option::Some(p1) => match expect(p1.1, ",\"secret\":"@) {
                Option::None => Option::None,
                Option::Some(s2) => match parse_qstr(s2) {
                    Option::None => Option::None,
                    Option::Some(p2) => match expect(p2.1, ",\"token\":"@) {
                        Option::None => Option::None,
                        Option::Some(s3) => match parse_qstr(s3) {
                            Option::None => Option::None,
                            Option::Some(p3) => match expect(p3.1, "}"@) {
                                Option::None => Option::None,
                                Option::Some(s4) => Option::Some(
                                    (ApiConfigV { id: p1.0, secret: p2.0, token: p3.0 }, s4),
                                ),
                            },
                        },
                    },
                },
            },
        },
    }
}

/// Reads the paths section from the front of `s`.
pub open spec fn dec_file(s: Seq<char>) -> Option<(FileConfigV, Seq<char>)> {
    match expect(s, "{\"seed\":"@) {
        Option::None => Option::None,
        Option::Some(s1) => match parse_num(s1) {
            Option::None => Option::None,
            Option::Some(p1) => match expect(p1.1, ",\"db\":"@) {
                Option::None => Option::None,
                Option::Some(s2) => match parse_qstr(s2) {
                    Option::None => Option::None,
                    Option::Some(p2) => match expect(p2.1, ",\"log\":"@) {
                        Option::None => Option::None,
                        Option::Some(s3) => match parse_qstr(s3) {
                            Option::None => Option::None,
                            Option::Some(p3) => match expect(p3.1, ",\"media\":"@) {
                                Option::None => Option::None,
                                Option::Some(s4) => match parse_qstr(s4) {
                                    Option::None => Option::None,
                                    Option::Some(p4) => match expect(p4.1, "}"@) {
                                        Option::None => Option::None,
                                        Option::Some(s5) => Option::Some(
                                            (
                                                FileConfigV {
                                                    seed: p1.0,
                                                    db: p2.0,
                                                    log: p3.0,
                                                    media: p4.0,
                                                },
                                                s5,
                                            ),
                                        ),
                                    },
                                },
                            },
                        },
                    },
                },
            },
        },
    }
}

/// Reads the posting-policy section from the front of `s`.
pub open spec fn dec_policy(s: Seq<char>) -> Option<(PostPolicy, Seq<char>)> {
    match expect(s, "{\"interval\":"@) {
        Option::None => Option::None,
        Option::Some(s1) => match parse_num(s1) {
            Option::None => Option::None,
            Option::Some(p1) => match expect(p1.1, ",\"restrict_dislike_limit\":"@) {
                Option::None => Option::None,
                Option::Some(s2) => match parse_num(s2) {
                    Option::None => Option::None,
                    Option::Some(p2) => match expect(p2.1, ",\"delete_dislike_limit\":"@) {
                        Option::None => Option::None,
                        Option::Some(s3) => match parse_num(s3) {
                            Option::None => Option::None,
                            Option::Some(p3) => match expect(p3.1, ",\"pin_like_limit\":"@) {
                                Option::None => Option::None,
                                Option::Some(s4) => match parse_num(s4) {
                                    Option::None => Option::None,
                                    Option::Some(p4) => match expect(
                                        p4.1,
                                        ",\"auto_delete_cnt\":"@,
                                    ) {
                                        Option::None => Option::None,
                                        Option::Some(s5) => match parse_num(s5) {
                                            Option::None => Option::None,
                                            Option::Some(p5) => match expect(p5.1, "}"@) {
                                                Option::None => Option::None,
                                                Option::Some(s6) => Option::Some(
                                                    (
                                                        PostPolicy {
                                                            interval: p1.0,
                                                            restrict_dislike_limit: p2.0,
                                                            delete_dislike_limit: p3.0,
                                                            pin_like_limit: p4.0,
                                                            auto_delete_cnt: p5.0,
                                                        },
                                                        s6,
                                                    ),
                                                ),
                                            },
                                        },
                                    },
                                },
                            },
                        },
                    },
                },
            },
        },
    }
}

/// Reads the media-policy section from the front of `s`.
pub open spec fn dec_media(s: Seq<char>) -> Option<(MediaPolicy, Seq<char>)> {
    match expect(s, "{\"max_media_size\":"@) {
        Option::None => Option::None,
        Option::Some(s1) => match parse_num(s1) {
            Option::None => Option::None,
            Option::Some(p1) => match expect(p1.1, "}"@) {
                Option::None => Option::None,
                Option::Some(s2) => Option::Some((MediaPolicy { max_media_size: p1.0 }, s2)),
            },
        },
    }
}

/// Reads a whole snapshot: the aggregate, with nothing allowed to follow.
pub open spec fn spec_decode(s: Seq<char>) -> Option<ConfigV> {
    match expect(s, "{\"owner_id\":"@) {
        Option::None => Option::None,
        Option::Some(s1) => match parse_num(s1) {
            Option::None => Option::None,
            Option::Some(p1) => match expect(p1.1, ",\"name\":"@) {
                Option::None => Option::None,
                Option::Some(s2) => match parse_qstr(s2) {
                    Option::None => Option::None,
                    Option::Some(p2) => match expect(p2.1, ",\"api\":"@) {
                        Option::None => Option::None,
                        Option::Some(s3) => match dec_api(s3) {
                            Option::None => Option::None,
                            Option::Some(p3) => match expect(p3.1, ",\"file\":"@) {
                                Option::None => Option::None,
                                Option::Some(s4) => match dec_file(s4) {
                                    Option::None => Option::None,
                                    Option::Some(p4) => match expect(p4.1, ",\"policy\":"@) {
                                        Option::None => Option::None,
                                        Option::Some(s5) => match dec_policy(s5) {
                                            Option::None => Option::None,
                                            Option::Some(p5) => match expect(p5.1, ",\"media\":"@) {
                                                Option::None => Option::None,
                                                Option::Some(s6) => match dec_media(s6) {
                                                    Option::None => Option::None,
                                                    Option::Some(p6) => match expect(p6.1, "}"@) {
                                                        Option::None => Option::None,
                                                        Option::Some(s7) => if s7.len() == 0 {
                                                            Option::Some(
                                                                ConfigV {
                                                                    owner_id: p1.0,
                                                                    name: p2.0,
                                                                    api: p3.0,
                                                                    file: p4.0,
                                                                    policy: p5.0,
                                                                    media: p6.0,
                                                                },
                                                            )
                                                        } else {
                                                            Option::None
                                                        },
                                                    },
                                                },
                                            },
                                        },
                                    },
                                },
                            },
                        },
                    },
                },
            },
        },
    }
}

/// Reading the credentials section back recovers it exactly.
pub proof fn lemma_dec_api(a: ApiConfigV, rest: Seq<char>)
    ensures
        dec_api(enc_api(a) + rest) == Option::Some((a, rest)),
{
    reveal_strlit(",\"secret\":");
    let u5 = "}"@ + rest;
    let u4 = enc_str(a.token) + u5;
    let u3 = ",\"token\":"@ + u4;
    let u2 = enc_str(a.secret) + u3;
    let u1 = ",\"secret\":"@ + u2;
    let u0 = dec_digits(a.id as int) + u1;
    assert(enc_api(a) + rest =~= "{\"id\":"@ + u0);
    lemma_expect("{\"id\":"@, u0);
    assert(u1[0] == ',');
    assert(!is_digit(u1[0]));
    lemma_parse_num(a.id, u1);
    lemma_expect(",\"secret\":"@, u2);
    lemma_parse_qstr(a.secret, u3);
    lemma_expect(",\"token\":"@, u4);
    lemma_parse_qstr(a.token, u5);
    lemma_expect("}"@, rest);
    assert(ApiConfigV { id: a.id, secret: a.secret, token: a.token } =~= a);
}

/// Reading the paths section back recovers it exactly.
pub proof fn lemma_dec_file(f: FileConfigV, rest: Seq<char>)
    ensures
        dec_file(enc_file(f) + rest) == Option::Some((f, rest)),
{
    reveal_strlit(",\"db\":");
    let u7 = "}"@ + rest;
    let u6 = enc_str(f.media) + u7;
    let u5 = ",\"media\":"@ + u6;
    let u4 = enc_str(f.log) + u5;
    let u3 = ",\"log\":"@ + u4;
    let u2 = enc_str(f.db) + u3;
    let u1 = ",\"db\":"@ + u2;
    let u0 = dec_digits(f.seed as int) + u1;
    assert(enc_file(f) + rest =~= "{\"seed\":"@ + u0);
    lemma_expect("{\"seed\":"@, u0);
    assert(u1[0] == ',');
    assert(!is_digit(u1[0]));
    lemma_parse_num(f.seed, u1);
    lemma_expect(",\"db\":"@, u2);
    lemma_parse_qstr(f.db, u3);
    lemma_expect(",\"log\":"@, u4);
    lemma_parse_qstr(f.log, u5);
    lemma_expect(",\"media\":"@, u6);
    lemma_parse_qstr(f.media, u7);
    lemma_expect("}"@, rest);
    assert(FileConfigV { seed: f.seed, db: f.db, log: f.log, media: f.media } =~= f);
}

/// Reading the posting-policy section back recovers it exactly.
pub proof fn lemma_dec_policy(p: PostPolicy, rest: Seq<char>)
    ensures
        dec_policy(enc_policy(p) + rest) == Option::Some((p, rest)),
{
    reveal_strlit(",\"restrict_dislike_limit\":");
    reveal_strlit(",\"delete_dislike_limit\":");
    reveal_strlit(",\"pin_like_limit\":");
    reveal_strlit(",\"auto_delete_cnt\":");
    reveal_strlit("}");
    let l1 = "{\"interval\":"@;
    let d1 = dec_digits(p.interval as int);
    let l2 = ",\"restrict_dislike_limit\":"@;
    let d2 = dec_digits(p.restrict_dislike_limit as int);
    let l3 = ",\"delete_dislike_limit\":"@;
    let d3 = dec_digits(p.delete_dislike_limit as int);
    let l4 = ",\"pin_like_limit\":"@;
    let d4 = dec_digits(p.pin_like_limit as int);
    let l5 = ",\"auto_delete_cnt\":"@;
    let d5 = dec_digits(p.auto_delete_cnt as int);
    let l6 = "}"@;
    let r10 = d5 + l6;
    let r9 = l5 + r10;
    let r8 = d4 + r9;
    let r7 = l4 + r8;
    let r6 = d3 + r7;
    let r5 = l3 + r6;
    let r4 = d2 + r5;
    let r3 = l2 + r4;
    let r2 = d1 + r3;
    let u9 = l6 + rest;
    let u8 = d5 + u9;
    let u7 = l5 + u8;
    let u6 = d4 + u7;
    let u5 = l4 + u6;
    let u4 = d3 + u5;
    let u3 = l3 + u4;
    let u2 = d2 + u3;
    let u1 = l2 + u2;
    let u0 = d1 + u1;
    vstd::seq_lib::lemma_concat_associative(d5, l6, rest);
    vstd::seq_lib::lemma_concat_associative(l5, r10, rest);
    vstd::seq_lib::lemma_concat_associative(d4, r9, rest);
    vstd::seq_lib::lemma_concat_associative(l4, r8, rest);
    vstd::seq_lib::lemma_concat_associative(d3, r7, rest);
    vstd::seq_lib::lemma_concat_associative(l3, r6, rest);
    vstd::seq_lib::lemma_concat_associative(d2, r5, rest);
    vstd::seq_lib::lemma_concat_associative(l2, r4, rest);
    vstd::seq_lib::lemma_concat_associative(d1, r3, rest);
    vstd::seq_lib::lemma_concat_associative(l1, r2, rest);
    assert(enc_policy(p) + rest == l1 + u0);
    lemma_expect(l1, u0);
    assert(u1[0] == ',');
    assert(!is_digit(u1[0]));
    lemma_parse_num(p.interval, u1);
    lemma_expect(",\"restrict_dislike_limit\":"@, u2);
    assert(u3[0] == ',');
    assert(!is_digit(u3[0]));
    lemma_parse_num(p.restrict_dislike_limit, u3);
    lemma_expect(",\"delete_dislike_limit\":"@, u4);
    assert(u5[0] == ',');
    assert(!is_digit(u5[0]));
    lemma_parse_num(p.delete_dislike_limit, u5);
    lemma_expect(",\"pin_like_limit\":"@, u6);
    assert(u7[0] == ',');
    assert(!is_digit(u7[0]));
    lemma_parse_num(p.pin_like_limit, u7);
    lemma_expect(",\"auto_delete_cnt\":"@, u8);
    assert(u9[0] == '}');
    assert(!is_digit(u9[0]));
    lemma_parse_num(p.auto_delete_cnt, u9);
    lemma_expect("}"@, rest);
    assert(PostPolicy {
        interval: p.interval,
        restrict_dislike_limit: p.restrict_dislike_limit,
        delete_dislike_limit: p.delete_dislike_limit,
        pin_like_limit: p.pin_like_limit,
        auto_delete_cnt: p.auto_delete_cnt,
    } =~= p);
}

/// Reading the media-policy section back recovers it exactly.
pub proof fn lemma_dec_media(m: MediaPolicy, rest: Seq<char>)
    ensures
        dec_media(enc_media(m) + rest) == Option::Some((m, rest)),
{
    reveal_strlit("}");
    let u1 = "}"@ + rest;
    let u0 = dec_digits(m.max_media_size as int) + u1;
    assert(enc_media(m) + rest =~= "{\"max_media_size\":"@ + u0);
    lemma_expect("{\"max_media_size\":"@, u0);
    assert(u1[0] == '}');
    assert(!is_digit(u1[0]));
    lemma_parse_num(m.max_media_size, u1);
    lemma_expect("}"@, rest);
    assert(MediaPolicy { max_media_size: m.max_media_size } =~= m);
}

/// The snapshot round trip: writing any aggregate and reading the text
/// back yields that aggregate exactly.
pub proof fn lemma_snapshot_round_trip(c: ConfigV)
    ensures
        spec_decode(spec_encode(c)) == Option::Some(c),
{
    reveal_strlit(",\"name\":");
    let rest0 = Seq::<char>::empty();
    let u12 = "}"@ + rest0;
    let u11 = enc_media(c.media) + u12;
    let u10 = ",\"media\":"@ + u11;
    let u9 = enc_policy(c.policy) + u10;
    let u8 = ",\"policy\":"@ + u9;
    let u7 = enc_file(c.file) + u8;
    let u6 = ",\"file\":"@ + u7;
    let u5 = enc_api(c.api) + u6;
    let u4 = ",\"api\":"@ + u5;
    let u3 = enc_str(c.name) + u4;
    let u2 = ",\"name\":"@ + u3;
    let u1 = dec_digits(c.owner_id as int) + u2;
    assert(spec_encode(c) =~= "{\"owner_id\":"@ + u1);
    lemma_expect("{\"owner_id\":"@, u1);
    assert(u2[0] == ',');
    assert(!is_digit(u2[0]));
    lemma_parse_num(c.owner_id, u2);
    lemma_expect(",\"name\":"@, u3);
    lemma_parse_qstr(c.name, u4);
    lemma_expect(",\"api\":"@, u5);
    lemma_dec_api(c.api, u6);
    lemma_expect(",\"file\":"@, u7);
    lemma_dec_file(c.file, u8);
    lemma_expect(",\"policy\":"@, u9);
    lemma_dec_policy(c.policy, u10);
    lemma_expect(",\"media\":"@, u11);
    lemma_dec_media(c.media, u12);
    lemma_expect("}"@, rest0);
    assert(ConfigV {
        owner_id: c.owner_id,
        name: c.name,
        api: c.api,
        file: c.file,
        policy: c.policy,
        media: c.media,
    } =~= c);
}

/// Consumes the literal `lit` at position `i`.
fn expect_at(v: &Vec<char>, i: usize, lit: &Vec<char>) -> (r: Option<usize>)
    requires
        i <= v@.len(),
    ensures
        (match expect(v@.skip(i as int), lit@) {
            Option::None => r is None,
            Option::Some(rest) => r matches Some(j) && i <= j <= v@.len() && v@.skip(j as int)
                == rest,
        }),
{
    let ghost s = v@.skip(i as int);
    if v.len() - i < lit.len() {
        return None;
    }
    let mut k: usize = 0;
    while k < lit.len()
        invariant
            k <= lit@.len(),
            i + lit@.len() <= v@.len(),
            v@.len() <= usize::MAX,
            s == v@.skip(i as int),
            forall|m: int| 0 <= m < k ==> s[m] == lit@[m],
        decreases lit@.len() - k,
    {
        if v[i + k] != lit[k] {
            proof {
                assert(s[k as int] == v@[i + k]);
                if lit@.len() <= s.len() && s.take(lit@.len() as int) == lit@ {
                    assert(s.take(lit@.len() as int)[k as int] == lit@[k as int]);
                    assert(false);
                }
            }
            return None;
        }
        k = k + 1;
    }
    proof {
        assert(s.take(lit@.len() as int) =~= lit@);
        assert(v@.skip(i + lit@.len() as int) =~= s.skip(lit@.len() as int));
    }
    Some(i + lit.len())
}

/// Reads a decimal number at position `i`.
fn num_at(v: &Vec<char>, i: usize) -> (r: Option<(u64, usize)>)
    requires
        i <= v@.len(),
    ensures
        (match parse_num(v@.skip(i as int)) {
            Option::None => r is None,
            Option::Some(p) => r matches Some(q) && q.0 == p.0 && i <= q.1 <= v@.len() && v@.skip(
                q.1 as int,
            ) == p.1,
        }),
{
    let ghost s = v@.skip(i as int);
    let mut k: usize = i;
    let mut acc: u64 = 0;
    let mut ok: bool = true;
    loop
        invariant
            i <= k <= v@.len(),
            s == v@.skip(i as int),
            all_digits(v@.subrange(i as int, k as int)),
            digit_prefix_len(s) == (k - i) + digit_prefix_len(v@.skip(k as int)),
            ok ==> acc == digits_val(v@.subrange(i as int, k as int)),
            !ok ==> digits_val(v@.subrange(i as int, k as int)) > u64::MAX,
        ensures
            i <= k <= v@.len(),
            s == v@.skip(i as int),
            all_digits(v@.subrange(i as int, k as int)),
            digit_prefix_len(s) == k - i,
            ok ==> acc == digits_val(v@.subrange(i as int, k as int)),
            !ok ==> digits_val(v@.subrange(i as int, k as int)) > u64::MAX,
        decreases v@.len() - k,
    {
        if k >= v.len() {
            proof {
                assert(v@.skip(k as int).len() == 0);
            }
            break ;
        }
        let c = v[k];
        let u = c as u32;
        if u < '0' as u32 || u > '9' as u32 {
            proof {
                assert(v@.skip(k as int)[0] == v@[k as int]);
                assert(!is_digit(v@[k as int]));
            }
            break ;
        }
        let d: u64 = (u - '0' as u32) as u64;
        proof {
            assert(v@.skip(k as int)[0] == v@[k as int]);
            assert(is_digit(v@[k as int]));
            assert(v@.skip(k as int).skip(1) =~= v@.skip(k + 1 as int));
            assert(v@.subrange(i as int, k + 1 as int).drop_last() =~= v@.subrange(
                i as int,
                k as int,
            ));
            assert(v@.subrange(i as int, k + 1 as int).last() == v@[k as int]);
            assert forall|m: int| 0 <= m < k + 1 - i implies is_digit(
                #[trigger] v@.subrange(i as int, k + 1 as int)[m],
            ) by {
                if m < k - i {
                    assert(v@.subrange(i as int, k as int)[m] == v@[i + m]);
                } else {
                    assert(v@.subrange(i as int, k + 1 as int)[m] == v@[k as int]);
                }
            }
        }
        if ok {
            proof {
                lemma_digits_val_nonneg(v@.subrange(i as int, k as int));
            }
            match acc.checked_mul(10) {
                Some(m) => match m.checked_add(d) {
                    Some(t) => {
                        acc = t;
                    },
                    None => {
                        ok = false;
                    },
                },
                None => {
                    ok = false;
                },
            }
        } else {
            proof {
                lemma_digits_val_push_ge(v@.subrange(i as int, k as int), v@[k as int]);
            }
        }
        k = k + 1;
    }
    proof {
        assert(s.take((k - i) as int) =~= v@.subrange(i as int, k as int));
        assert(s.skip((k - i) as int) =~= v@.skip(k as int));
    }
    if k == i {
        return None;
    }
    if !ok {
        return None;
    }
    proof {
        lemma_digits_val_nonneg(v@.subrange(i as int, k as int));
    }
    Some((acc, k))
}

/// Reads a quoted string at position `i`.
fn qstr_at(v: &Vec<char>, i: usize) -> (r: Option<(String, usize)>)
    requires
        i <= v@.len(),
    ensures
        (match parse_qstr(v@.skip(i as int)) {
            Option::None => r is None,
            Option::Some(p) => r matches Some(q) && q.0@ == p.0 && i <= q.1 <= v@.len() && v@.skip(
                q.1 as int,
            ) == p.1,
        }),
{
    let ghost s = v@.skip(i as int);
    if i >= v.len() {
        return None;
    }
    if v[i] != '"' {
        proof {
            assert(s[0] == v@[i as int]);
        }
        return None;
    }
    proof {
        assert(s[0] == v@[i as int]);
        assert(s.skip(1) =~= v@.skip(i + 1 as int));
    }
    let mut out: Vec<char> = Vec::new();
    let mut k: usize = i + 1;
    proof {
        assert(out@ + scan_qstr(v@.skip(k as int)).unwrap().0 =~= scan_qstr(
            v@.skip(k as int),
        ).unwrap().0);
    }
    loop
        invariant
            i + 1 <= k <= v@.len(),
            s == v@.skip(i as int),
            s[0] == '"',
            s.len() > 0,
            s.skip(1) == v@.skip(i + 1 as int),
            (match scan_qstr(v@.skip(i + 1 as int)) {
                Option::None => scan_qstr(v@.skip(k as int)) is None,
                Option::Some(p) => scan_qstr(v@.skip(k as int)) matches Some(p2) && p.0 == out@
                    + p2.0 && p.1 == p2.1,
            }),
        decreases v@.len() - k,
    {
        if k >= v.len() {
            proof {
                assert(v@.skip(k as int).len() == 0);
            }
            return None;
        }
        let c = v[k];
        proof {
            assert(v@.skip(k as int)[0] == v@[k as int]);
        }
        if c == '"' {
            proof {
                assert(scan_qstr(v@.skip(k as int)) == Option::Some(
                    (Seq::<char>::empty(), v@.skip(k as int).skip(1)),
                ));
                assert(v@.skip(k as int).skip(1) =~= v@.skip(k + 1 as int));
                assert(out@ + Seq::<char>::empty() =~= out@);
            }
            return Some((string_of(&out), k + 1));
        }
        if c == '\\' {
            if k + 1 >= v.len() {
                proof {
                    assert(v@.skip(k as int).len() < 2);
                }
                return None;
            }
            let e = v[k + 1];
            proof {
                assert(v@.skip(k as int)[1] == v@[k + 1 as int]);
                assert(v@.skip(k as int).skip(2) =~= v@.skip(k + 2 as int));
                if let Option::Some(p2) = scan_qstr(v@.skip(k + 2 as int)) {
                    assert(out@ + (seq![v@[k + 1 as int]] + p2.0) =~= out@.push(
                        v@[k + 1 as int],
                    ) + p2.0);
                }
            }
            out.push(e);
            k = k + 2;
        } else {
            proof {
                assert(v@.skip(k as int).skip(1) =~= v@.skip(k + 1 as int));
                if let Option::Some(p2) = scan_qstr(v@.skip(k + 1 as int)) {
                    assert(out@ + (seq![v@[k as int]] + p2.0) =~= out@.push(v@[k as int]) + p2.0);
                }
            }
            out.push(c);
            k = k + 1;
        }
    }
}

/// Appends the characters of a literal.
fn push_lit(out: &mut Vec<char>, lit: &str)
    ensures
        final(out)@ == old(out)@ + lit@,
{
    let lc = chars_of(lit);
    let mut k: usize = 0;
    proof {
        assert(old(out)@ + lc@.take(0) =~= old(out)@);
    }
    while k < lc.len()
        invariant
            k <= lc@.len(),
            lc@ == lit@,
            out@ == old(out)@ + lc@.take(k as int),
        decreases lc@.len() - k,
    {
        out.push(lc[k]);
        proof {
            assert(lc@.take(k + 1 as int) =~= lc@.take(k as int).push(lc@[k as int]));
            assert(old(out)@ + lc@.take(k as int).push(lc@[k as int]) =~= (old(out)@ + lc@.take(
                k as int,
            )).push(lc@[k as int]));
        }
        k = k + 1;
    }
    proof {
        assert(lc@.take(lc@.len() as int) =~= lit@);
    }
}

/// Appends a string value in its quoted, escaped snapshot form.
fn push_qstr(out: &mut Vec<char>, s: &str)
    ensures
        final(out)@ == old(out)@ + enc_str(s@),
{
    let cs = chars_of(s);
    out.push('"');
    let mut k: usize = 0;
    proof {
        assert(esc(cs@.take(0)) =~= Seq::<char>::empty());
        assert(out@ =~= old(out)@ + seq!['"'] + esc(cs@.take(0)));
    }
    while k < cs.len()
        invariant
            k <= cs@.len(),
            cs@ == s@,
            out@ == old(out)@ + seq!['"'] + esc(cs@.take(k as int)),
        decreases cs@.len() - k,
    {
        let c = cs[k];
        if c == '"' || c == '\\' {
            out.push('\\');
            out.push(c);
        } else {
            out.push(c);
        }
        proof {
            let one = seq![cs@[k as int]];
            let head: Seq<char> = if cs@[k as int] == '"' || cs@[k as int] == '\\' {
                seq!['\\', cs@[k as int]]
            } else {
                seq![cs@[k as int]]
            };
            assert(one.skip(1) =~= Seq::<char>::empty());
            assert(esc(Seq::<char>::empty()) =~= Seq::<char>::empty());
            assert(esc(one) =~= head);
            lemma_esc_append(cs@.take(k as int), one);
            assert(cs@.take(k + 1 as int) =~= cs@.take(k as int) + one);
            assert(out@ =~= old(out)@ + seq!['"'] + esc(cs@.take(k + 1 as int)));
        }
        k = k + 1;
    }
    out.push('"');
    proof {
        assert(cs@.take(cs@.len() as int) =~= s@);
        assert(out@ =~= old(out)@ + enc_str(s@));
    }
}

fn push_api(out: &mut Vec<char>, a: &ApiConfig)
    ensures
        final(out)@ == old(out)@ + enc_api(a@),
{
    push_lit(out, "{\"id\":");
    push_dec(a.id, out);
    push_lit(out, ",\"secret\":");
    push_qstr(out, a.secret.as_str());
    push_lit(out, ",\"token\":");
    push_qstr(out, a.token.as_str());
    push_lit(out, "}");
    proof {
        assert(out@ =~= old(out)@ + enc_api(a@));
    }
}

fn push_file(out: &mut Vec<char>, f: &FileConfig)
    ensures
        final(out)@ == old(out)@ + enc_file(f@),
{
    push_lit(out, "{\"seed\":");
    push_dec(f.seed, out);
    push_lit(out, ",\"db\":");
    push_qstr(out, f.db.as_str());
    push_lit(out, ",\"log\":");
    push_qstr(out, f.log.as_str());
    push_lit(out, ",\"media\":");
    push_qstr(out, f.media.as_str());
    push_lit(out, "}");
    proof {
        assert(out@ =~= old(out)@ + enc_file(f@));
    }
}

fn push_policy(out: &mut Vec<char>, p: &PostPolicy)
    ensures
        final(out)@ == old(out)@ + enc_policy(*p),
{
    push_lit(out, "{\"interval\":");
    push_dec(p.interval, out);
    push_lit(out, ",\"restrict_dislike_limit\":");
    push_dec(p.restrict_dislike_limit, out);
    push_lit(out, ",\"delete_dislike_limit\":");
    push_dec(p.delete_dislike_limit, out);
    push_lit(out, ",\"pin_like_limit\":");
    push_dec(p.pin_like_limit, out);
    push_lit(out, ",\"auto_delete_cnt\":");
    push_dec(p.auto_delete_cnt, out);
    push_lit(out, "}");
    proof {
        let o = old(out)@;
        let l1 = "{\"interval\":"@;
        let d1 = dec_digits(p.interval as int);
        let l2 = ",\"restrict_dislike_limit\":"@;
        let d2 = dec_digits(p.restrict_dislike_limit as int);
        let l3 = ",\"delete_dislike_limit\":"@;
        let d3 = dec_digits(p.delete_dislike_limit as int);
        let l4 = ",\"pin_like_limit\":"@;
        let d4 = dec_digits(p.pin_like_limit as int);
        let l5 = ",\"auto_delete_cnt\":"@;
        let d5 = dec_digits(p.auto_delete_cnt as int);
        let l6 = "}"@;
        vstd::seq_lib::lemma_concat_associative(
            o + l1 + d1 + l2 + d2 + l3 + d3 + l4 + d4 + l5,
            d5,
            l6,
        );
        vstd::seq_lib::lemma_concat_associative(
            o + l1 + d1 + l2 + d2 + l3 + d3 + l4 + d4,
            l5,
            d5 + l6,
        );
        vstd::seq_lib::lemma_concat_associative(
            o + l1 + d1 + l2 + d2 + l3 + d3 + l4,
            d4,
            l5 + (d5 + l6),
        );
        vstd::seq_lib::lemma_concat_associative(
            o + l1 + d1 + l2 + d2 + l3 + d3,
            l4,
            d4 + (l5 + (d5 + l6)),
        );
        vstd::seq_lib::lemma_concat_associative(
            o + l1 + d1 + l2 + d2 + l3,
            d3,
            l4 + (d4 + (l5 + (d5 + l6))),
        );
        vstd::seq_lib::lemma_concat_associative(
            o + l1 + d1 + l2 + d2,
            l3,
            d3 + (l4 + (d4 + (l5 + (d5 + l6)))),
        );
        vstd::seq_lib::lemma_concat_associative(
            o + l1 + d1 + l2,
            d2,
            l3 + (d3 + (l4 + (d4 + (l5 + (d5 + l6))))),
        );
        vstd::seq_lib::lemma_concat_associative(
            o + l1 + d1,
            l2,
            d2 + (l3 + (d3 + (l4 + (d4 + (l5 + (d5 + l6)))))),
        );
        vstd::seq_lib::lemma_concat_associative(
            o + l1,
            d1,
            l2 + (d2 + (l3 + (d3 + (l4 + (d4 + (l5 + (d5 + l6))))))),
        );
        vstd::seq_lib::lemma_concat_associative(
            o,
            l1,
            d1 + (l2 + (d2 + (l3 + (d3 + (l4 + (d4 + (l5 + (d5 + l6)))))))),
        );
        assert(out@ == o + enc_policy(*p));
    }
}

fn push_media(out: &mut Vec<char>, m: &MediaPolicy)
    ensures
        final(out)@ == old(out)@ + enc_media(*m),
{
    push_lit(out, "{\"max_media_size\":");
    push_dec(m.max_media_size, out);
    push_lit(out, "}");
    proof {
        assert(out@ =~= old(out)@ + enc_media(*m));
    }
}

/// Reads the credentials section at position `i`.
fn dec_api_at(v: &Vec<char>, i: usize) -> (r: Option<(ApiConfig, usize)>)
    requires
        i <= v@.len(),
    ensures
        (match dec_api(v@.skip(i as int)) {
            Option::None => r is None,
            Option::Some(p) => r matches Some(q) && q.0@ == p.0 && i <= q.1 <= v@.len() && v@.skip(
                q.1 as int,
            ) == p.1,
        }),
{
    let j1 = match expect_at(v, i, &chars_of("{\"id\":")) {
        Some(j) => j,
        None => return None,
    };
    let (id, j2) = match num_at(v, j1) {
        Some(q) => q,
        None => return None,
    };
    let j3 = match expect_at(v, j2, &chars_of(",\"secret\":")) {
        Some(j) => j,
        None => return None,
    };
    let (secret, j4) = match qstr_at(v, j3) {
        Some(q) => q,
        None => return None,
    };
    let j5 = match expect_at(v, j4, &chars_of(",\"token\":")) {
        Some(j) => j,
        None => return None,
    };
    let (token, j6) = match qstr_at(v, j5) {
        Some(q) => q,
        None => return None,
    };
    let j7 = match expect_at(v, j6, &chars_of("}")) {
        Some(j) => j,
        None => return None,
    };
    Some((ApiConfig { id, secret, token }, j7))
}

/// Reads the paths section at position `i`.
fn dec_file_at(v: &Vec<char>, i: usize) -> (r: Option<(FileConfig, usize)>)
    requires
        i <= v@.len(),
    ensures
        (match dec_file(v@.skip(i as int)) {
            Option::None => r is None,
            Option::Some(p) => r matches Some(q) && q.0@ == p.0 && i <= q.1 <= v@.len() && v@.skip(
                q.1 as int,
            ) == p.1,
        }),
{
    let j1 = match expect_at(v, i, &chars_of("{\"seed\":")) {
        Some(j) => j,
        None => return None,
    };
    let (seed, j2) = match num_at(v, j1) {
        Some(q) => q,
        None => return None,
    };
    let j3 = match expect_at(v, j2, &chars_of(",\"db\":")) {
        Some(j) => j,
        None => return None,
    };
    let (db, j4) = match qstr_at(v, j3) {
        Some(q) => q,
        None => return None,
    };
    let j5 = match expect_at(v, j4, &chars_of(",\"log\":")) {
        Some(j) => j,
        None => return None,
    };
    let (log, j6) = match qstr_at(v, j5) {
        Some(q) => q,
        None => return None,
    };
    let j7 = match expect_at(v, j6, &chars_of(",\"media\":")) {
        Some(j) => j,
        None => return None,
    };
    let (media, j8) = match qstr_at(v, j7) {
        Some(q) => q,
        None => return None,
    };
    let j9 = match expect_at(v, j8, &chars_of("}")) {
        Some(j) => j,
        None => return None,
    };
    Some((FileConfig { seed, db, log, media }, j9))
}

/// Reads the posting-policy section at position `i`.
fn dec_policy_at(v: &Vec<char>, i: usize) -> (r: Option<(PostPolicy, usize)>)
    requires
        i <= v@.len(),
    ensures
        (match dec_policy(v@.skip(i as int)) {
            Option::None => r is None,
            Option::Some(p) => r matches Some(q) && q.0 == p.0 && i <= q.1 <= v@.len() && v@.skip(
                q.1 as int,
            ) == p.1,
        }),
{
    let j1 = match expect_at(v, i, &chars_of("{\"interval\":")) {
        Some(j) => j,
        None => return None,
    };
    let (interval, j2) = match num_at(v, j1) {
        Some(q) => q,
        None => return None,
    };
    let j3 = match expect_at(v, j2, &chars_of(",\"restrict_dislike_limit\":")) {
        Some(j) => j,
        None => return None,
    };
    let (restrict_dislike_limit, j4) = match num_at(v, j3) {
        Some(q) => q,
        None => return None,
    };
    let j5 = match expect_at(v, j4, &chars_of(",\"delete_dislike_limit\":")) {
        Some(j) => j,
        None => return None,
    };
    let (delete_dislike_limit, j6) = match num_at(v, j5) {
        Some(q) => q,
        None => return None,
    };
    let j7 = match expect_at(v, j6, &chars_of(",\"pin_like_limit\":")) {
        Some(j) => j,
        None => return None,
    };
    let (pin_like_limit, j8) = match num_at(v, j7) {
        Some(q) => q,
        None => return None,
    };
    let j9 = match expect_at(v, j8, &chars_of(",\"auto_delete_cnt\":")) {
        Some(j) => j,
        None => return None,
    };
    let (auto_delete_cnt, j10) = match num_at(v, j9) {
        Some(q) => q,
        None => return None,
    };
    let j11 = match expect_at(v, j10, &chars_of("}")) {
        Some(j) => j,
        None => return None,
    };
    Some(
        (
            PostPolicy {
                interval,
                restrict_dislike_limit,
                delete_dislike_limit,
                pin_like_limit,
                auto_delete_cnt,
            },
            j11,
        ),
    )
}

/// Reads the media-policy section at position `i`.
fn dec_media_at(v: &Vec<char>, i: usize) -> (r: Option<(MediaPolicy, usize)>)
    requires
        i <= v@.len(),
    ensures
        (match dec_media(v@.skip(i as int)) {
            Option::None => r is None,
            Option::Some(p) => r matches Some(q) && q.0 == p.0 && i <= q.1 <= v@.len() && v@.skip(
                q.1 as int,
            ) == p.1,
        }),
{
    let j1 = match expect_at(v, i, &chars_of("{\"max_media_size\":")) {
        Some(j) => j,
        None => return None,
    };
    let (max_media_size, j2) = match num_at(v, j1) {
        Some(q) => q,
        None => return None,
    };
    let j3 = match expect_at(v, j2, &chars_of("}")) {
        Some(j) => j,
        None => return None,
    };
    Some((MediaPolicy { max_media_size }, j3))
}

impl Config {
    /// Serializes the aggregate to its canonical snapshot text.  The text
    /// includes the plaintext credential material; hardening the file the
    /// caller writes it to is the caller's responsibility.
    pub fn save_to_json(&self) -> (r: String)
        ensures
            r@ == spec_encode(self@),
    {
        let mut out: Vec<char> = Vec::new();
        push_lit(&mut out, "{\"owner_id\":");
        push_dec(self.owner_id, &mut out);
        push_lit(&mut out, ",\"name\":");
        push_qstr(&mut out, self.name.as_str());
        push_lit(&mut out, ",\"api\":");
        push_api(&mut out, &self.api);
        push_lit(&mut out, ",\"file\":");
        push_file(&mut out, &self.file);
        push_lit(&mut out, ",\"policy\":");
        push_policy(&mut out, &self.policy);
        push_lit(&mut out, ",\"media\":");
        push_media(&mut out, &self.media);
        push_lit(&mut out, "}");
        proof {
            let l1 = "{\"owner_id\":"@;
            let d1 = dec_digits(self.owner_id as int);
            let l2 = ",\"name\":"@;
            let q2 = enc_str(self.name@);
            let l3 = ",\"api\":"@;
            let a4 = enc_api(self.api@);
            let l5 = ",\"file\":"@;
            let f6 = enc_file(self.file@);
            let l7 = ",\"policy\":"@;
            let p8 = enc_policy(self.policy);
            let l9 = ",\"media\":"@;
            let m10 = enc_media(self.media);
            let l11 = "}"@;
            assert(Seq::<char>::empty() + l1 =~= l1);
            vstd::seq_lib::lemma_concat_associative(
                l1 + d1 + l2 + q2 + l3 + a4 + l5 + f6 + l7 + p8 + l9,
                m10,
                l11,
            );
            vstd::seq_lib::lemma_concat_associative(
                l1 + d1 + l2 + q2 + l3 + a4 + l5 + f6 + l7 + p8,
                l9,
                m10 + l11,
            );
            vstd::seq_lib::lemma_concat_associative(
                l1 + d1 + l2 + q2 + l3 + a4 + l5 + f6 + l7,
                p8,
                l9 + (m10 + l11),
            );
            vstd::seq_lib::lemma_concat_associative(
                l1 + d1 + l2 + q2 + l3 + a4 + l5 + f6,
                l7,
                p8 + (l9 + (m10 + l11)),
            );
            vstd::seq_lib::lemma_concat_associative(
                l1 + d1 + l2 + q2 + l3 + a4 + l5,
                f6,
                l7 + (p8 + (l9 + (m10 + l11))),
            );
            vstd::seq_lib::lemma_concat_associative(
                l1 + d1 + l2 + q2 + l3 + a4,
                l5,
                f6 + (l7 + (p8 + (l9 + (m10 + l11)))),
            );
            vstd::seq_lib::lemma_concat_associative(
                l1 + d1 + l2 + q2 + l3,
                a4,
                l5 + (f6 + (l7 + (p8 + (l9 + (m10 + l11))))),
            );
            vstd::seq_lib::lemma_concat_associative(
                l1 + d1 + l2 + q2,
                l3,
                a4 + (l5 + (f6 + (l7 + (p8 + (l9 + (m10 + l11)))))),
            );
            vstd::seq_lib::lemma_concat_associative(
                l1 + d1 + l2,
                q2,
                l3 + (a4 + (l5 + (f6 + (l7 + (p8 + (l9 + (m10 + l11))))))),
            );
            vstd::seq_lib::lemma_concat_associative(
                l1 + d1,
                l2,
                q2 + (l3 + (a4 + (l5 + (f6 + (l7 + (p8 + (l9 + (m10 + l11)))))))),
            );
            vstd::seq_lib::lemma_concat_associative(
                l1,
                d1,
                l2 + (q2 + (l3 + (a4 + (l5 + (f6 + (l7 + (p8 + (l9 + (m10 + l11))))))))),
            );
            assert(out@ == spec_encode(self@));
        }
        string_of(&out)
    }

    /// Reads an aggregate back from snapshot text.  `None` means the text
    /// is not a snapshot this crate wrote; the pipeline treats that as the
    /// source being unavailable, never as partial success.
    pub fn load_from_json(s: &str) -> (r: Option<Config>)
        ensures
            (match spec_decode(s@) {
                Option::None => r is None,
                Option::Some(cv) => r matches Some(c) && c@ == cv,
            }),
    {
        let v = chars_of(s);
        proof {
            assert(v@.skip(0) =~= v@);
        }
        let j1 = match expect_at(&v, 0, &chars_of("{\"owner_id\":")) {
            Some(j) => j,
            None => return None,
        };
        let (owner_id, j2) = match num_at(&v, j1) {
            Some(q) => q,
            None => return None,
        };
        let j3 = match expect_at(&v, j2, &chars_of(",\"name\":")) {
            Some(j) => j,
            None => return None,
        };
        let (name, j4) = match qstr_at(&v, j3) {
            Some(q) => q,
            None => return None,
        };
        let j5 = match expect_at(&v, j4, &chars_of(",\"api\":")) {
            Some(j) => j,
            None => return None,
        };
        let (api, j6) = match dec_api_at(&v, j5) {
            Some(q) => q,
            None => return None,
        };
        let j7 = match expect_at(&v, j6, &chars_of(",\"file\":")) {
            Some(j) => j,
            None => return None,
        };
        let (file, j8) = match dec_file_at(&v, j7) {
            Some(q) => q,
            None => return None,
        };
        let j9 = match expect_at(&v, j8, &chars_of(",\"policy\":")) {
            Some(j) => j,
            None => return None,
        };
        let (policy, j10) = match dec_policy_at(&v, j9) {
            Some(q) => q,
            None => return None,
        };
        let j11 = match expect_at(&v, j10, &chars_of(",\"media\":")) {
            Some(j) => j,
            None => return None,
        };
        let (media, j12) = match dec_media_at(&v, j11) {
            Some(q) => q,
            None => return None,
        };
        let j13 = match expect_at(&v, j12, &chars_of("}")) {
            Some(j) => j,
            None => return None,
        };
        if j13 != v.len() {
            proof {
                assert(v@.skip(j13 as int).len() != 0);
            }
            return None;
        }
        proof {
            assert(v@.skip(j13 as int).len() == 0);
        }
        Some(Config { owner_id, name, api, file, policy, media })
    }
}

} // verus!
