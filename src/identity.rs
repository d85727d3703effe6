//! Validation of maintainer identities of the shape `Name <email>`.
//!
//! The check is a single forward scan over the bytes of the string that
//! tracks five flags. It never backtracks: each byte either moves the flags
//! on or ends the scan with an error.
use vstd::prelude::*;
use vstd::utf8::encode_utf8;

verus! {

/// The bytes that the scan gives a meaning to.
pub const OPEN_ANGLE: u8 = 60;
pub const CLOSE_ANGLE: u8 = 62;
pub const AT_SIGN: u8 = 64;
pub const SPACE: u8 = 32;
pub const TAB: u8 = 9;

/// Why an identity string was rejected.
#[derive(Clone, Copy, Debug, PartialEq, Eq, Structural)]
pub enum IdentityError {
    /// A separator or `<` came before any name character.
    MissingName,
    /// `<`, `>` and `@` are missing or out of order.
    InvalidFormat,
}

/// The five flags of the scan after some prefix of the string.
pub struct ScanState {
    pub open_angle: bool,
    pub close_angle: bool,
    pub at_sign: bool,
    pub name: bool,
    pub space: bool,
}

pub open spec fn initial_scan() -> ScanState {
    ScanState { open_angle: false, close_angle: false, at_sign: false, name: false, space: false }
}

pub open spec fn is_separator(c: u8) -> bool {
    c == SPACE || c == TAB
}

/// One step of the scan: the flags after byte `c`, or the error it raises.
pub open spec fn scan_step(st: ScanState, c: u8) -> Result<ScanState, IdentityError> {
    if c == OPEN_ANGLE {
        if !st.space {
            Err(IdentityError::MissingName)
        } else {
            Ok(ScanState { open_angle: true, ..st })
        }
    } else if c == CLOSE_ANGLE {
        if !st.open_angle {
            Err(IdentityError::InvalidFormat)
        } else {
            Ok(ScanState { close_angle: true, ..st })
        }
    } else if c == AT_SIGN {
        if !st.open_angle || st.close_angle {
            Err(IdentityError::InvalidFormat)
        } else {
            Ok(ScanState { at_sign: true, ..st })
        }
    } else if is_separator(c) {
        if !st.name {
            Err(IdentityError::MissingName)
        } else {
            Ok(ScanState { space: true, ..st })
        }
    } else if !st.space {
        Ok(ScanState { name: true, ..st })
    } else {
        Ok(st)
    }
}

/// The scan of the bytes `s`, started from the flags `st`.
pub open spec fn scan_from(st: ScanState, s: Seq<u8>) -> Result<ScanState, IdentityError>
    decreases s.len(),
{
    if s.len() == 0 {
        Ok(st)
    } else {
        match scan_from(st, s.drop_last()) {
            Ok(t) => scan_step(t, s.last()),
            Err(e) => Err(e),
        }
    }
}

pub open spec fn scan(s: Seq<u8>) -> Result<ScanState, IdentityError> {
    scan_from(initial_scan(), s)
}

/// The verdict on the bytes `s`: the scan must get through every byte and
/// must have seen a name, `<`, `>` and `@`.
pub open spec fn identity_verdict(s: Seq<u8>) -> Result<(), IdentityError> {
    match scan(s) {
        Err(e) => Err(e),
        Ok(st) => if st.name && st.open_angle && st.close_angle && st.at_sign {
            Ok(())
        } else {
            Err(IdentityError::InvalidFormat)
        },
    }
}

/// The message shown for each error.
pub open spec fn identity_message(e: IdentityError) -> Seq<char> {
    match e {
        IdentityError::MissingName => "Please enter a name."@,
        IdentityError::InvalidFormat => "Invalid format."@,
    }
}

/// Once the scan of a prefix has failed, the scan of the whole fails the same way.
proof fn lemma_scan_error_sticks(st: ScanState, s: Seq<u8>, n: int)
    requires
        0 <= n <= s.len(),
        scan_from(st, s.subrange(0, n)) is Err,
    ensures
        scan_from(st, s) == scan_from(st, s.subrange(0, n)),
    decreases s.len() - n,
{
    if n < s.len() {
        assert(s.subrange(0, n + 1).drop_last() =~= s.subrange(0, n));
        lemma_scan_error_sticks(st, s, n + 1);
    } else {
        assert(s.subrange(0, n) =~= s);
    }
}

/// Bytes with no meaning to the scan: no separator, `<`, `>` or `@`.
pub open spec fn is_plain(c: u8) -> bool {
    c != OPEN_ANGLE && c != CLOSE_ANGLE && c != AT_SIGN && !is_separator(c)
}

/// The scan of `a + b` is the scan of `b` from where the scan of `a` ended.
proof fn lemma_scan_concat(st: ScanState, a: Seq<u8>, b: Seq<u8>)
    ensures
        scan_from(st, a + b) == match scan_from(st, a) {
            Ok(t) => scan_from(t, b),
            Err(e) => Err(e),
        },
    decreases b.len(),
{
    if b.len() == 0 {
        assert(a + b =~= a);
    } else {
        assert((a + b).drop_last() =~= a + b.drop_last());
        lemma_scan_concat(st, a, b.drop_last());
    }
}

proof fn lemma_scan_one(st: ScanState, c: u8)
    ensures
        scan_from(st, seq![c]) == scan_step(st, c),
{
    assert(seq![c].drop_last() =~= Seq::<u8>::empty());
    assert(scan_from(st, Seq::<u8>::empty()) == Ok::<ScanState, IdentityError>(st));
    assert(seq![c].last() == c);
}

/// Plain bytes before any separator only mark that a name was seen.
proof fn lemma_scan_plain(st: ScanState, s: Seq<u8>)
    requires
        !st.space,
        forall|i: int| 0 <= i < s.len() ==> is_plain(#[trigger] s[i]),
    ensures
        scan_from(st, s) == Ok::<ScanState, IdentityError>(
            ScanState { name: st.name || s.len() > 0, ..st },
        ),
    decreases s.len(),
{
    if s.len() > 0 {
        lemma_scan_plain(st, s.drop_last());
    }
}

/// Inside the angle brackets, any byte but `>` keeps the scan inside them.
proof fn lemma_scan_inside(st: ScanState, s: Seq<u8>)
    requires
        st.name && st.space && st.open_angle && !st.close_angle,
        forall|i: int| 0 <= i < s.len() ==> #[trigger] s[i] != CLOSE_ANGLE,
    ensures
        scan_from(st, s) is Ok,
        ({
            let t = scan_from(st, s)->Ok_0;
            t.name && t.space && t.open_angle && !t.close_angle && (st.at_sign ==> t.at_sign)
        }),
    decreases s.len(),
{
    if s.len() > 0 {
        lemma_scan_inside(st, s.drop_last());
    }
}

/// Once everything has been seen, any byte but `@` leaves the flags as they are.
proof fn lemma_scan_closed(st: ScanState, s: Seq<u8>)
    requires
        st.name && st.space && st.open_angle && st.close_angle && st.at_sign,
        forall|i: int| 0 <= i < s.len() ==> #[trigger] s[i] != AT_SIGN,
    ensures
        scan_from(st, s) == Ok::<ScanState, IdentityError>(st),
    decreases s.len(),
{
    if s.len() > 0 {
        lemma_scan_closed(st, s.drop_last());
    }
}

/// Without a `<` among the bytes, a scan that gets through never has one.
proof fn lemma_scan_no_open_angle(st: ScanState, s: Seq<u8>)
    requires
        !st.open_angle,
        forall|i: int| 0 <= i < s.len() ==> #[trigger] s[i] != OPEN_ANGLE,
        scan_from(st, s) is Ok,
    ensures
        !scan_from(st, s)->Ok_0.open_angle,
    decreases s.len(),
{
    if s.len() > 0 {
        lemma_scan_no_open_angle(st, s.drop_last());
    }
}

/// Every identity `name <local@domain>rest` is accepted where the name is
/// non-empty and holds no separator, `<`, `>` or `@`, neither the local part
/// nor the domain holds a `>`, and the rest holds no `@`.
pub proof fn lemma_identity_accepted(name: Seq<u8>, local: Seq<u8>, domain: Seq<u8>, rest: Seq<u8>)
    requires
        name.len() > 0,
        forall|i: int| 0 <= i < name.len() ==> is_plain(#[trigger] name[i]),
        forall|i: int| 0 <= i < local.len() ==> #[trigger] local[i] != CLOSE_ANGLE,
        forall|i: int| 0 <= i < domain.len() ==> #[trigger] domain[i] != CLOSE_ANGLE,
        forall|i: int| 0 <= i < rest.len() ==> #[trigger] rest[i] != AT_SIGN,
    ensures
        identity_verdict(
            name + seq![SPACE, OPEN_ANGLE] + local + seq![AT_SIGN] + domain + seq![CLOSE_ANGLE] + rest,
        ) == Ok::<(), IdentityError>(()),
{
    let st0 = initial_scan();
    let g2 = name + seq![SPACE];
    let g3 = g2 + seq![OPEN_ANGLE];
    let g4 = g3 + local;
    let g5 = g4 + seq![AT_SIGN];
    let g6 = g5 + domain;
    let g7 = g6 + seq![CLOSE_ANGLE];
    let g8 = g7 + rest;
    assert(g8 =~= name + seq![SPACE, OPEN_ANGLE] + local + seq![AT_SIGN] + domain + seq![
        CLOSE_ANGLE,
    ] + rest);
    lemma_scan_plain(st0, name);
    let t1 = ScanState { name: true, ..st0 };
    lemma_scan_concat(st0, name, seq![SPACE]);
    lemma_scan_one(t1, SPACE);
    let t2 = ScanState { space: true, ..t1 };
    lemma_scan_concat(st0, g2, seq![OPEN_ANGLE]);
    lemma_scan_one(t2, OPEN_ANGLE);
    let t3 = ScanState { open_angle: true, ..t2 };
    lemma_scan_concat(st0, g3, local);
    lemma_scan_inside(t3, local);
    let t4 = scan_from(t3, local)->Ok_0;
    lemma_scan_concat(st0, g4, seq![AT_SIGN]);
    lemma_scan_one(t4, AT_SIGN);
    let t5 = ScanState { at_sign: true, ..t4 };
    lemma_scan_concat(st0, g5, domain);
    lemma_scan_inside(t5, domain);
    let t6 = scan_from(t5, domain)->Ok_0;
    lemma_scan_concat(st0, g6, seq![CLOSE_ANGLE]);
    lemma_scan_one(t6, CLOSE_ANGLE);
    let t7 = ScanState { close_angle: true, ..t6 };
    lemma_scan_concat(st0, g7, rest);
    lemma_scan_closed(t7, rest);
}

/// A string that opens with a separator or with `<` lacks a name.
pub proof fn lemma_leading_missing_name(s: Seq<u8>)
    requires
        s.len() > 0,
        is_separator(s[0]) || s[0] == OPEN_ANGLE,
    ensures
        identity_verdict(s) == Err::<(), IdentityError>(IdentityError::MissingName),
{
    assert(s.subrange(0, 1) =~= seq![s[0]]);
    lemma_scan_one(initial_scan(), s[0]);
    lemma_scan_error_sticks(initial_scan(), s, 1);
}

/// A `>` or `@` that comes before any `<` makes the string malformed, unless
/// the bytes before it have already been rejected.
pub proof fn lemma_marker_before_open_angle(pre: Seq<u8>, c: u8, post: Seq<u8>)
    requires
        c == CLOSE_ANGLE || c == AT_SIGN,
        forall|i: int| 0 <= i < pre.len() ==> #[trigger] pre[i] != OPEN_ANGLE,
        scan(pre) is Ok,
    ensures
        identity_verdict(pre + seq![c] + post) == Err::<(), IdentityError>(
            IdentityError::InvalidFormat,
        ),
{
    lemma_scan_no_open_angle(initial_scan(), pre);
    lemma_scan_concat(initial_scan(), pre, seq![c]);
    lemma_scan_one(scan(pre)->Ok_0, c);
    lemma_scan_concat(initial_scan(), pre + seq![c], post);
}

/// A string without `<` is never accepted.
pub proof fn lemma_no_open_angle_rejected(s: Seq<u8>)
    requires
        forall|i: int| 0 <= i < s.len() ==> #[trigger] s[i] != OPEN_ANGLE,
    ensures
        identity_verdict(s) is Err,
{
    if scan(s) is Ok {
        lemma_scan_no_open_angle(initial_scan(), s);
    }
}

/// Checks that `maintainer` has the shape `Name <email>`; on failure the
/// error carries the message to show.
pub fn validate_maintainer(maintainer: &String) -> (r: Result<(), String>)
    ensures
        match identity_verdict(encode_utf8(maintainer@)) {
            Ok(_) => r is Ok,
            Err(e) => r is Err && r->Err_0@ == identity_message(e),
        },
{
    let bytes = maintainer.as_str().as_bytes();
    let ghost s = bytes@;
    let mut lt = false;
    let mut gt = false;
    let mut at = false;
    let mut name = false;
    let mut nbsp = false;
    let mut i: usize = 0;
    while i < bytes.len()
        invariant
            i <= s.len(),
            s == bytes@,
            s == encode_utf8(maintainer@),
            scan(s.subrange(0, i as int)) == Ok::<ScanState, IdentityError>(
                ScanState { open_angle: lt, close_angle: gt, at_sign: at, name: name, space: nbsp },
            ),
        decreases s.len() - i,
    {
        let c = bytes[i];
        assert(s.subrange(0, i + 1).drop_last() =~= s.subrange(0, i as int));
        if c == OPEN_ANGLE {
            if !nbsp {
                proof {
                    lemma_scan_error_sticks(initial_scan(), s, i + 1);
                }
                return Err("Please enter a name.".to_owned());
            }
            lt = true;
        } else if c == CLOSE_ANGLE {
            if !lt {
                proof {
                    lemma_scan_error_sticks(initial_scan(), s, i + 1);
                }
                return Err("Invalid format.".to_owned());
            }
            gt = true;
        } else if c == AT_SIGN {
            if !lt || gt {
                proof {
                    lemma_scan_error_sticks(initial_scan(), s, i + 1);
                }
                return Err("Invalid format.".to_owned());
            }
            at = true;
        } else if c == SPACE || c == TAB {
            if !name {
                proof {
                    lemma_scan_error_sticks(initial_scan(), s, i + 1);
                }
                return Err("Please enter a name.".to_owned());
            }
            nbsp = true;
        } else if !nbsp {
            name = true;
        }
        i += 1;
    }
    assert(s.subrange(0, i as int) =~= s);
    if name && gt && lt && at {
        return Ok(());
    }
    Err("Invalid format.".to_owned())
}

} // verus!
