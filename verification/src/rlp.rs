use vstd::prelude::*;

verus! {

// ---------------------------------------------------------------------------
// Mathematical model of the RLP wire grammar.
//
// An item is a byte string or a list. Its header is, in order of first byte:
//   0x00..=0x7f  the byte itself is a one-byte string payload
//   0x80..=0xb7  short string, payload length = byte - 0x80
//   0xb8..=0xbf  long string, (byte - 0xb7) big-endian length bytes follow
//   0xc0..=0xf7  short list, payload length = byte - 0xc0
//   0xf8..=0xff  long list, (byte - 0xf7) big-endian length bytes follow
// Decoding is strict about canonical form: a one-byte payload below 0x80 must
// use the first form, long lengths must have no leading zero and be >= 56,
// and integer payloads must have no leading zero byte.
// ---------------------------------------------------------------------------

/// Big-endian value of a byte sequence.
pub open spec fn be_val(s: Seq<u8>) -> nat
    decreases s.len(),
{
    if s.len() == 0 {
        0
    } else {
        be_val(s.drop_last()) * 256 + s.last() as nat
    }
}

/// 256 to the `n`-th power.
pub open spec fn pow256(n: nat) -> nat
    decreases n,
{
    if n == 0 {
        1
    } else {
        256 * pow256((n - 1) as nat)
    }
}

pub proof fn lemma_be_val_bound(s: Seq<u8>)
    ensures
        be_val(s) < pow256(s.len()),
    decreases s.len(),
{
    if s.len() > 0 {
        lemma_be_val_bound(s.drop_last());
        lemma_pow256_pos((s.len() - 1) as nat);
    }
}

pub proof fn lemma_pow256_pos(n: nat)
    ensures
        pow256(n) >= 1,
    decreases n,
{
    if n > 0 {
        lemma_pow256_pos((n - 1) as nat);
    }
}

/// A parsed item header: whether the item is a list, where its payload
/// starts, and how long the payload is.
pub struct RlpHdr {
    pub is_list: bool,
    pub pstart: int,
    pub plen: int,
}

/// Parses the item header at position `i` of `s`. `None` on truncated input
/// or a non-canonical header. On success the payload lies within `s`.
pub open spec fn parse_hdr(s: Seq<u8>, i: int) -> Option<RlpHdr> {
    if !(0 <= i < s.len()) {
        None
    } else {
        let b = s[i] as int;
        if b < 0x80 {
            Some(RlpHdr { is_list: false, pstart: i, plen: 1 })
        } else if b <= 0xb7 {
            let l = b - 0x80;
            if i + 1 + l > s.len() {
                None
            } else if l == 1 && s[i + 1] < 0x80 {
                None
            } else {
                Some(RlpHdr { is_list: false, pstart: i + 1, plen: l })
            }
        } else if b <= 0xbf {
            parse_long_hdr(s, i, false, b - 0xb7)
        } else if b <= 0xf7 {
            let l = b - 0xc0;
            if i + 1 + l > s.len() {
                None
            } else {
                Some(RlpHdr { is_list: true, pstart: i + 1, plen: l })
            }
        } else {
            parse_long_hdr(s, i, true, b - 0xf7)
        }
    }
}

/// The long-form case of `parse_hdr`: `n` length bytes follow the first byte.
pub open spec fn parse_long_hdr(s: Seq<u8>, i: int, is_list: bool, n: int) -> Option<RlpHdr> {
    if i + 1 + n > s.len() {
        None
    } else if s[i + 1] == 0 {
        None
    } else {
        let l = be_val(s.subrange(i + 1, i + 1 + n)) as int;
        if l < 56 {
            None
        } else if i + 1 + n + l > s.len() {
            None
        } else {
            Some(RlpHdr { is_list, pstart: i + 1 + n, plen: l })
        }
    }
}

// ---------------------------------------------------------------------------
// Executable header parser.
// ---------------------------------------------------------------------------

/// Reads `n` big-endian bytes at `data[i..i+n]` as a number.
fn read_be(data: &Vec<u8>, i: usize, n: usize) -> (r: u128)
    requires
        i + n <= data@.len(),
        n <= 8,
    ensures
        r == be_val(data@.subrange(i as int, i + n)),
        r < 0x1_0000_0000_0000_0000u128,
{
    let dl = data.len();
    let mut acc: u128 = 0;
    let mut j: usize = 0;
    proof {
        assert(data@.subrange(i as int, i as int) =~= Seq::<u8>::empty());
    }
    while j < n
        invariant
            0 <= j <= n,
            n <= 8,
            i + n <= dl,
            dl == data@.len(),
            acc == be_val(data@.subrange(i as int, i + j)),
            acc < pow256(j as nat),
        decreases n - j,
    {
        proof {
            lemma_pow256_mono(j as nat, 8);
            lemma_pow256_val8();
            assert(data@.subrange(i as int, i + j + 1).drop_last() =~= data@.subrange(
                i as int,
                i + j,
            ));
        }
        acc = acc * 256 + data[i + j] as u128;
        j = j + 1;
    }
    proof {
        lemma_pow256_mono(n as nat, 8);
        lemma_pow256_val8();
    }
    acc
}

pub proof fn lemma_pow256_val8()
    ensures
        pow256(8) == 0x1_0000_0000_0000_0000,
{
    reveal_with_fuel(pow256, 9);
}

pub proof fn lemma_pow256_mono(a: nat, b: nat)
    requires
        a <= b,
    ensures
        pow256(a) <= pow256(b),
    decreases b,
{
    if a < b {
        lemma_pow256_mono(a, (b - 1) as nat);
        lemma_pow256_pos((b - 1) as nat);
    }
}

/// Parses the item header at `data[i..]`. Mirrors `parse_hdr` exactly.
pub fn rlp_hdr(data: &Vec<u8>, i: usize) -> (r: Option<(bool, usize, usize)>)
    ensures
        match r {
            Some(t) => {
                &&& parse_hdr(data@, i as int) == Some(
                    RlpHdr { is_list: t.0, pstart: t.1 as int, plen: t.2 as int },
                )
                &&& t.1 + t.2 <= data@.len()
                &&& t.1 + t.2 <= usize::MAX
                &&& i < t.1 + t.2
                &&& i <= t.1
            },
            None => parse_hdr(data@, i as int) is None,
        },
{
    if i >= data.len() {
        return None;
    }
    let b = data[i];
    if b < 0x80 {
        Some((false, i, 1))
    } else if b <= 0xb7 {
        let l = (b - 0x80) as usize;
        if l > data.len() - (i + 1) {
            None
        } else if l == 1 && data[i + 1] < 0x80 {
            None
        } else {
            Some((false, i + 1, l))
        }
    } else if b <= 0xbf {
        rlp_long_hdr(data, i, false, (b - 0xb7) as usize)
    } else if b <= 0xf7 {
        let l = (b - 0xc0) as usize;
        if l > data.len() - (i + 1) {
            None
        } else {
            Some((true, i + 1, l))
        }
    } else {
        rlp_long_hdr(data, i, true, (b - 0xf7) as usize)
    }
}

/// The long-form case of `rlp_hdr`.
fn rlp_long_hdr(data: &Vec<u8>, i: usize, is_list: bool, n: usize) -> (r: Option<
    (bool, usize, usize),
>)
    requires
        i < data@.len(),
        1 <= n <= 8,
    ensures
        match r {
            Some(t) => {
                &&& parse_long_hdr(data@, i as int, is_list, n as int) == Some(
                    RlpHdr { is_list: t.0, pstart: t.1 as int, plen: t.2 as int },
                )
                &&& t.0 == is_list
                &&& t.1 + t.2 <= data@.len()
                &&& t.1 + t.2 <= usize::MAX
                &&& i < t.1 + t.2
                &&& i <= t.1
            },
            None => parse_long_hdr(data@, i as int, is_list, n as int) is None,
        },
{
    if n > data.len() - (i + 1) {
        return None;
    }
    if data[i + 1] == 0 {
        return None;
    }
    let l = read_be(data, i + 1, n);
    if l < 56 {
        return None;
    }
    let remaining = (data.len() - (i + 1 + n)) as u128;
    if l > remaining {
        return None;
    }
    Some((is_list, i + 1 + n, l as usize))
}

// ---------------------------------------------------------------------------
// Field parsers: spec level.
// Each returns the decoded value and the position just past the field.
// ---------------------------------------------------------------------------

/// An unsigned integer of at most `max_len` payload bytes: a byte-string item
/// with no leading zero byte (zero is the empty payload).
pub open spec fn parse_uint(s: Seq<u8>, i: int, max_len: int) -> Option<(nat, int)> {
    match parse_hdr(s, i) {
        None => None,
        Some(h) => {
            if h.is_list {
                None
            } else if h.plen > max_len {
                None
            } else if h.plen > 0 && s[h.pstart] == 0 {
                None
            } else {
                Some((be_val(s.subrange(h.pstart, h.pstart + h.plen)), h.pstart + h.plen))
            }
        },
    }
}

/// A 256-bit scalar kept as its canonical payload bytes.
pub open spec fn parse_u256(s: Seq<u8>, i: int) -> Option<(Seq<u8>, int)> {
    match parse_hdr(s, i) {
        None => None,
        Some(h) => {
            if h.is_list {
                None
            } else if h.plen > 32 {
                None
            } else if h.plen > 0 && s[h.pstart] == 0 {
                None
            } else {
                Some((s.subrange(h.pstart, h.pstart + h.plen), h.pstart + h.plen))
            }
        },
    }
}

/// An arbitrary byte-string item.
pub open spec fn parse_bytes(s: Seq<u8>, i: int) -> Option<(Seq<u8>, int)> {
    match parse_hdr(s, i) {
        None => None,
        Some(h) => {
            if h.is_list {
                None
            } else {
                Some((s.subrange(h.pstart, h.pstart + h.plen), h.pstart + h.plen))
            }
        },
    }
}

/// A byte-string item of exactly 32 bytes.
pub open spec fn parse_b256(s: Seq<u8>, i: int) -> Option<(Seq<u8>, int)> {
    match parse_hdr(s, i) {
        None => None,
        Some(h) => {
            if h.is_list || h.plen != 32 {
                None
            } else {
                Some((s.subrange(h.pstart, h.pstart + h.plen), h.pstart + h.plen))
            }
        },
    }
}

/// A recipient: the empty byte string (contract creation) or 20 bytes.
pub open spec fn parse_txkind(s: Seq<u8>, i: int) -> Option<(crate::types::GTxKind, int)> {
    match parse_hdr(s, i) {
        None => None,
        Some(h) => {
            if h.is_list {
                None
            } else if h.plen == 0 {
                Some((crate::types::GTxKind::Create, h.pstart))
            } else if h.plen == 20 {
                Some(
                    (
                        crate::types::GTxKind::Call(s.subrange(h.pstart, h.pstart + h.plen)),
                        h.pstart + h.plen,
                    ),
                )
            } else {
                None
            }
        },
    }
}

/// An account address: a byte-string item of exactly 20 bytes.
pub open spec fn parse_address(s: Seq<u8>, i: int) -> Option<(Seq<u8>, int)> {
    match parse_hdr(s, i) {
        None => None,
        Some(h) => {
            if h.is_list || h.plen != 20 {
                None
            } else {
                Some((s.subrange(h.pstart, h.pstart + h.plen), h.pstart + h.plen))
            }
        },
    }
}

/// Storage keys packed back to back in `s[i..end]`; the keys must fill the
/// range exactly.
pub open spec fn parse_keys(s: Seq<u8>, i: int, end: int) -> Option<Seq<Seq<u8>>>
    decreases end - i,
{
    if i == end {
        Some(Seq::<Seq<u8>>::empty())
    } else if i > end {
        None
    } else {
        match parse_b256(s, i) {
            None => None,
            Some((k, j)) => {
                if j <= i || j > end {
                    None
                } else {
                    match parse_keys(s, j, end) {
                        None => None,
                        Some(rest) => Some(seq![k] + rest),
                    }
                }
            },
        }
    }
}

/// One access-list entry: a two-field list of an address and a list of
/// storage keys, which together must fill the entry's payload exactly.
pub open spec fn parse_access_item(s: Seq<u8>, i: int) -> Option<(crate::types::GAccessItem, int)> {
    match parse_hdr(s, i) {
        None => None,
        Some(h) => {
            if !h.is_list {
                None
            } else {
                let iend = h.pstart + h.plen;
                match parse_address(s, h.pstart) {
                    None => None,
                    Some((addr, j1)) => {
                        if j1 > iend {
                            None
                        } else {
                            match parse_hdr(s, j1) {
                                None => None,
                                Some(kh) => {
                                    if !kh.is_list {
                                        None
                                    } else if kh.pstart + kh.plen != iend {
                                        None
                                    } else {
                                        match parse_keys(s, kh.pstart, iend) {
                                            None => None,
                                            Some(keys) => Some(
                                                (
                                                    crate::types::GAccessItem {
                                                        address: addr,
                                                        storage_keys: keys,
                                                    },
                                                    iend,
                                                ),
                                            ),
                                        }
                                    }
                                },
                            }
                        }
                    },
                }
            }
        },
    }
}

/// Access-list entries packed back to back in `s[i..end]`, filling the range
/// exactly.
pub open spec fn parse_access_items(s: Seq<u8>, i: int, end: int) -> Option<
    Seq<crate::types::GAccessItem>,
>
    decreases end - i,
{
    if i == end {
        Some(Seq::<crate::types::GAccessItem>::empty())
    } else if i > end {
        None
    } else {
        match parse_access_item(s, i) {
            None => None,
            Some((it, j)) => {
                if j <= i || j > end {
                    None
                } else {
                    match parse_access_items(s, j, end) {
                        None => None,
                        Some(rest) => Some(seq![it] + rest),
                    }
                }
            },
        }
    }
}

/// An access list: a list item whose payload is the packed entries.
pub open spec fn parse_access_list(s: Seq<u8>, i: int) -> Option<
    (Seq<crate::types::GAccessItem>, int),
> {
    match parse_hdr(s, i) {
        None => None,
        Some(h) => {
            if !h.is_list {
                None
            } else {
                match parse_access_items(s, h.pstart, h.pstart + h.plen) {
                    None => None,
                    Some(items) => Some((items, h.pstart + h.plen)),
                }
            }
        },
    }
}

// ---------------------------------------------------------------------------
// Field parsers: executable level.
// ---------------------------------------------------------------------------

/// Copies `data[start..end]` into a fresh vector.
pub fn copy_range(data: &Vec<u8>, start: usize, end: usize) -> (r: Vec<u8>)
    requires
        start <= end,
        end <= data@.len(),
    ensures
        r@ == data@.subrange(start as int, end as int),
{
    let mut out: Vec<u8> = Vec::new();
    let mut j: usize = start;
    proof {
        assert(out@ =~= data@.subrange(start as int, start as int));
    }
    while j < end
        invariant
            start <= j <= end,
            end <= data@.len(),
            out@ == data@.subrange(start as int, j as int),
        decreases end - j,
    {
        out.push(data[j]);
        j = j + 1;
        proof {
            assert(out@ =~= data@.subrange(start as int, j as int));
        }
    }
    out
}

/// Parses an unsigned integer of at most `max_len` (at most 16) payload bytes.
pub fn rlp_uint(data: &Vec<u8>, i: usize, max_len: usize) -> (r: Option<(u128, usize)>)
    requires
        max_len <= 16,
    ensures
        match r {
            Some(t) => {
                &&& parse_uint(data@, i as int, max_len as int) == Some(
                    (t.0 as nat, t.1 as int),
                )
                &&& i < t.1 <= data@.len()
                &&& t.0 < pow256(max_len as nat)
            },
            None => parse_uint(data@, i as int, max_len as int) is None,
        },
{
    let h = match rlp_hdr(data, i) {
        Some(h) => h,
        None => {
            return None;
        },
    };
    let (is_list, pstart, plen) = h;
    if is_list {
        return None;
    }
    if plen > max_len {
        return None;
    }
    if plen > 0 && data[pstart] == 0 {
        return None;
    }
    if plen <= 8 {
        let v = read_be(data, pstart, plen);
        proof {
            lemma_be_val_bound(data@.subrange(pstart as int, pstart + plen));
            lemma_pow256_mono(plen as nat, max_len as nat);
        }
        Some((v, pstart + plen))
    } else {
        // Up to 16 payload bytes: read in two big-endian halves.
        let hi = read_be(data, pstart, plen - 8);
        let lo = read_be(data, pstart + (plen - 8), 8);
        proof {
            lemma_be_val_split(data@.subrange(pstart as int, pstart + plen), (plen - 8) as int);
            assert(data@.subrange(pstart as int, pstart + plen).subrange(0, plen - 8) =~= data@
                .subrange(pstart as int, pstart + (plen - 8)));
            assert(data@.subrange(pstart as int, pstart + plen).subrange(
                plen - 8,
                plen as int,
            ) =~= data@.subrange(pstart + (plen - 8), pstart + plen));
            lemma_pow256_val8();
            lemma_be_val_bound(data@.subrange(pstart as int, pstart + plen));
            lemma_pow256_mono(plen as nat, max_len as nat);
            lemma_pow256_mono(max_len as nat, 16);
            lemma_pow256_val16();
            lemma_pow256_mul(hi as nat, lo as nat);
        }
        let v = hi * 0x1_0000_0000_0000_0000u128 + lo;
        Some((v, pstart + plen))
    }
}

pub proof fn lemma_pow256_val16()
    ensures
        pow256(16) == 0x1_0000_0000_0000_0000_0000_0000_0000_0000,
{
    reveal_with_fuel(pow256, 17);
}

/// `hi * 2^64 + lo` fits in a `u128` when both halves fit in 64 bits.
pub proof fn lemma_pow256_mul(hi: nat, lo: nat)
    requires
        hi < pow256(8),
        lo < pow256(8),
    ensures
        hi * pow256(8) + lo < pow256(16),
{
    lemma_pow256_val8();
    lemma_pow256_val16();
    assert(hi * pow256(8) <= (pow256(8) - 1) * pow256(8)) by (nonlinear_arith)
        requires
            hi <= pow256(8) - 1,
            pow256(8) >= 1,
    ;
}

/// Splitting a byte sequence splits its big-endian value.
pub proof fn lemma_be_val_split(s: Seq<u8>, k: int)
    requires
        0 <= k <= s.len(),
    ensures
        be_val(s) == be_val(s.subrange(0, k)) * pow256((s.len() - k) as nat) + be_val(
            s.subrange(k, s.len() as int),
        ),
    decreases s.len() - k,
{
    if k == s.len() {
        assert(s.subrange(0, k) =~= s);
        assert(s.subrange(k, s.len() as int) =~= Seq::<u8>::empty());
        assert(pow256((s.len() - k) as nat) == 1);
        assert(be_val(s.subrange(k, s.len() as int)) == 0);
        assert(be_val(s) == be_val(s.subrange(0, k)) * 1 + 0);
    } else {
        lemma_be_val_split(s.drop_last(), k);
        assert(s.drop_last().subrange(0, k) =~= s.subrange(0, k));
        assert(s.drop_last().subrange(k, s.len() - 1) =~= s.subrange(k, s.len() as int).drop_last());
        let a = be_val(s.subrange(0, k));
        let n = (s.len() - k) as nat;
        let t = s.subrange(k, s.len() as int);
        assert(t.last() == s.last());
        assert(be_val(s) == (a * pow256((n - 1) as nat) + be_val(t.drop_last())) * 256 + t.last());
        assert((a * pow256((n - 1) as nat) + be_val(t.drop_last())) * 256 == a * pow256(
            (n - 1) as nat,
        ) * 256 + be_val(t.drop_last()) * 256) by (nonlinear_arith);
        assert(a * pow256((n - 1) as nat) * 256 == a * (pow256((n - 1) as nat) * 256))
            by (nonlinear_arith);
        assert(pow256((n - 1) as nat) * 256 == pow256(n)) by {
            lemma_pow256_step((n - 1) as nat);
        }
        assert(t.len() == n);
        assert(be_val(t) == be_val(t.drop_last()) * 256 + t.last() as nat);
        assert(a * pow256((n - 1) as nat) * 256 == a * pow256(n)) by (nonlinear_arith)
            requires
                pow256((n - 1) as nat) * 256 == pow256(n),
        ;
        assert(be_val(s) == a * pow256(n) + be_val(t));
    }
}

pub proof fn lemma_pow256_step(n: nat)
    ensures
        pow256(n) * 256 == pow256(n + 1),
    decreases n,
{
    if n > 0 {
        lemma_pow256_step((n - 1) as nat);
        assert(pow256(n) * 256 == 256 * pow256((n - 1) as nat) * 256);
        assert(256 * pow256((n - 1) as nat) * 256 == 256 * (pow256((n - 1) as nat) * 256))
            by (nonlinear_arith);
    }
}

/// Parses a `u64` field.
pub fn rlp_u64(data: &Vec<u8>, i: usize) -> (r: Option<(u64, usize)>)
    ensures
        match r {
            Some(t) => {
                &&& parse_uint(data@, i as int, 8) == Some((t.0 as nat, t.1 as int))
                &&& i < t.1 <= data@.len()
            },
            None => parse_uint(data@, i as int, 8) is None,
        },
{
    match rlp_uint(data, i, 8) {
        None => None,
        Some((v, j)) => {
            proof {
                lemma_pow256_val8();
            }
            Some((v as u64, j))
        },
    }
}

/// Parses a `u128` field.
pub fn rlp_u128(data: &Vec<u8>, i: usize) -> (r: Option<(u128, usize)>)
    ensures
        match r {
            Some(t) => {
                &&& parse_uint(data@, i as int, 16) == Some((t.0 as nat, t.1 as int))
                &&& i < t.1 <= data@.len()
            },
            None => parse_uint(data@, i as int, 16) is None,
        },
{
    rlp_uint(data, i, 16)
}

/// Parses a 256-bit scalar field into its canonical bytes.
pub fn rlp_u256(data: &Vec<u8>, i: usize) -> (r: Option<(crate::types::Uint256, usize)>)
    ensures
        match r {
            Some(t) => {
                &&& parse_u256(data@, i as int) == Some((t.0@, t.1 as int))
                &&& i < t.1 <= data@.len()
                &&& t.0.wf()
            },
            None => parse_u256(data@, i as int) is None,
        },
{
    let h = match rlp_hdr(data, i) {
        Some(h) => h,
        None => {
            return None;
        },
    };
    let (is_list, pstart, plen) = h;
    if is_list {
        return None;
    }
    if plen > 32 {
        return None;
    }
    if plen > 0 && data[pstart] == 0 {
        return None;
    }
    let bytes = copy_range(data, pstart, pstart + plen);
    Some((crate::types::Uint256 { bytes }, pstart + plen))
}

/// Parses an arbitrary byte-string field.
pub fn rlp_bytes(data: &Vec<u8>, i: usize) -> (r: Option<(Vec<u8>, usize)>)
    ensures
        match r {
            Some(t) => {
                &&& parse_bytes(data@, i as int) == Some((t.0@, t.1 as int))
                &&& i < t.1 <= data@.len()
            },
            None => parse_bytes(data@, i as int) is None,
        },
{
    let h = match rlp_hdr(data, i) {
        Some(h) => h,
        None => {
            return None;
        },
    };
    let (is_list, pstart, plen) = h;
    if is_list {
        return None;
    }
    let bytes = copy_range(data, pstart, pstart + plen);
    Some((bytes, pstart + plen))
}

/// Parses a 32-byte word field.
pub fn rlp_b256(data: &Vec<u8>, i: usize) -> (r: Option<(crate::types::B256, usize)>)
    ensures
        match r {
            Some(t) => {
                &&& parse_b256(data@, i as int) == Some((t.0@, t.1 as int))
                &&& i < t.1 <= data@.len()
                &&& t.0.wf()
            },
            None => parse_b256(data@, i as int) is None,
        },
{
    let h = match rlp_hdr(data, i) {
        Some(h) => h,
        None => {
            return None;
        },
    };
    let (is_list, pstart, plen) = h;
    if is_list || plen != 32 {
        return None;
    }
    let bytes = copy_range(data, pstart, pstart + plen);
    Some((crate::types::B256 { bytes }, pstart + plen))
}

/// Parses a recipient field.
pub fn rlp_txkind(data: &Vec<u8>, i: usize) -> (r: Option<(crate::types::TxKind, usize)>)
    ensures
        match r {
            Some(t) => {
                &&& parse_txkind(data@, i as int) == Some((t.0@, t.1 as int))
                &&& i < t.1 <= data@.len()
                &&& t.0.wf()
            },
            None => parse_txkind(data@, i as int) is None,
        },
{
    let h = match rlp_hdr(data, i) {
        Some(h) => h,
        None => {
            return None;
        },
    };
    let (is_list, pstart, plen) = h;
    if is_list {
        return None;
    }
    if plen == 0 {
        Some((crate::types::TxKind::Create, pstart))
    } else if plen == 20 {
        let bytes = copy_range(data, pstart, pstart + plen);
        Some((crate::types::TxKind::Call(crate::types::Address { bytes }), pstart + plen))
    } else {
        None
    }
}

/// Parses an address field.
pub fn rlp_address(data: &Vec<u8>, i: usize) -> (r: Option<(crate::types::Address, usize)>)
    ensures
        match r {
            Some(t) => {
                &&& parse_address(data@, i as int) == Some((t.0@, t.1 as int))
                &&& i < t.1 <= data@.len()
                &&& t.0.wf()
            },
            None => parse_address(data@, i as int) is None,
        },
{
    let h = match rlp_hdr(data, i) {
        Some(h) => h,
        None => {
            return None;
        },
    };
    let (is_list, pstart, plen) = h;
    if is_list || plen != 20 {
        return None;
    }
    let bytes = copy_range(data, pstart, pstart + plen);
    Some((crate::types::Address { bytes }, pstart + plen))
}

/// Parses one access-list entry.
#[verifier::loop_isolation(false)]
pub fn rlp_access_item(data: &Vec<u8>, i: usize) -> (r: Option<
    (crate::types::AccessListItem, usize),
>)
    ensures
        match r {
            Some(t) => {
                &&& parse_access_item(data@, i as int) == Some((t.0@, t.1 as int))
                &&& i < t.1 <= data@.len()
                &&& t.0.wf()
            },
            None => parse_access_item(data@, i as int) is None,
        },
{
    let h = match rlp_hdr(data, i) {
        Some(h) => h,
        None => {
            return None;
        },
    };
    let (is_list, pstart, plen) = h;
    if !is_list {
        return None;
    }
    let iend = pstart + plen;
    let (address, j1) = match rlp_address(data, pstart) {
        Some(t) => t,
        None => {
            return None;
        },
    };
    if j1 > iend {
        return None;
    }
    let kh = match rlp_hdr(data, j1) {
        Some(t) => t,
        None => {
            return None;
        },
    };
    let (k_is_list, kp, kl) = kh;
    if !k_is_list {
        return None;
    }
    if kp + kl != iend {
        return None;
    }
    let mut keys: Vec<crate::types::B256> = Vec::new();
    let mut pos: usize = kp;
    proof {
        assert(keys@.map_values(|b: crate::types::B256| b@) =~= Seq::<Seq<u8>>::empty());
    }
    while pos < iend
        invariant
            kp <= pos <= iend,
            iend <= data@.len(),
            iend <= usize::MAX,
            forall|k: int| 0 <= k < keys@.len() ==> (#[trigger] keys@[k]).wf(),
            match parse_keys(data@, pos as int, iend as int) {
                Some(rest) => parse_keys(data@, kp as int, iend as int) == Some(
                    keys@.map_values(|b: crate::types::B256| b@) + rest,
                ),
                None => parse_keys(data@, kp as int, iend as int) is None,
            },
        decreases iend - pos,
    {
        let (key, j) = match rlp_b256(data, pos) {
            Some(t) => t,
            None => {
                return None;
            },
        };
        if j > iend {
            return None;
        }
        let ghost old_keys = keys@;
        let ghost gkey = key@;
        keys.push(key);
        proof {
            assert(keys@.map_values(|b: crate::types::B256| b@) =~= old_keys.map_values(
                |b: crate::types::B256| b@,
            ).push(gkey));
            if parse_keys(data@, j as int, iend as int) is Some {
                let rest = parse_keys(data@, j as int, iend as int)->Some_0;
                assert(parse_keys(data@, pos as int, iend as int) == Some(seq![gkey] + rest));
                assert(old_keys.map_values(|b: crate::types::B256| b@) + (seq![gkey] + rest)
                    =~= keys@.map_values(|b: crate::types::B256| b@) + rest);
            }
        }
        pos = j;
    }
    proof {
        assert(parse_keys(data@, pos as int, iend as int) == Some(Seq::<Seq<u8>>::empty()));
        assert(keys@.map_values(|b: crate::types::B256| b@) + Seq::<Seq<u8>>::empty()
            =~= keys@.map_values(|b: crate::types::B256| b@));
    }
    Some((crate::types::AccessListItem { address, storage_keys: keys }, iend))
}

/// Parses an access-list field.
#[verifier::loop_isolation(false)]
pub fn rlp_access_list(data: &Vec<u8>, i: usize) -> (r: Option<(crate::types::AccessList, usize)>)
    ensures
        match r {
            Some(t) => {
                &&& parse_access_list(data@, i as int) == Some((t.0@, t.1 as int))
                &&& i < t.1 <= data@.len()
                &&& t.0.wf()
            },
            None => parse_access_list(data@, i as int) is None,
        },
{
    let h = match rlp_hdr(data, i) {
        Some(h) => h,
        None => {
            return None;
        },
    };
    let (is_list, pstart, plen) = h;
    if !is_list {
        return None;
    }
    let lend = pstart + plen;
    let mut items: Vec<crate::types::AccessListItem> = Vec::new();
    let mut pos: usize = pstart;
    proof {
        assert(items@.map_values(|it: crate::types::AccessListItem| it@) =~= Seq::<
            crate::types::GAccessItem,
        >::empty());
    }
    while pos < lend
        invariant
            pstart <= pos <= lend,
            lend <= data@.len(),
            lend <= usize::MAX,
            forall|k: int| 0 <= k < items@.len() ==> (#[trigger] items@[k]).wf(),
            match parse_access_items(data@, pos as int, lend as int) {
                Some(rest) => parse_access_items(data@, pstart as int, lend as int) == Some(
                    items@.map_values(|it: crate::types::AccessListItem| it@) + rest,
                ),
                None => parse_access_items(data@, pstart as int, lend as int) is None,
            },
        decreases lend - pos,
    {
        let (item, j) = match rlp_access_item(data, pos) {
            Some(t) => t,
            None => {
                return None;
            },
        };
        if j > lend {
            return None;
        }
        let ghost old_items = items@;
        let ghost gitem = item@;
        items.push(item);
        proof {
            assert(items@.map_values(|it: crate::types::AccessListItem| it@) =~= old_items
                .map_values(|it: crate::types::AccessListItem| it@).push(gitem));
            if parse_access_items(data@, j as int, lend as int) is Some {
                let rest = parse_access_items(data@, j as int, lend as int)->Some_0;
                assert(parse_access_items(data@, pos as int, lend as int) == Some(
                    seq![gitem] + rest,
                ));
                assert(old_items.map_values(|it: crate::types::AccessListItem| it@) + (seq![gitem]
                    + rest) =~= items@.map_values(|it: crate::types::AccessListItem| it@) + rest);
            }
        }
        pos = j;
    }
    proof {
        assert(parse_access_items(data@, pos as int, lend as int) == Some(Seq::<
            crate::types::GAccessItem,
        >::empty()));
        assert(items@.map_values(|it: crate::types::AccessListItem| it@) + Seq::<
            crate::types::GAccessItem,
        >::empty() =~= items@.map_values(|it: crate::types::AccessListItem| it@));
    }
    Some((crate::types::AccessList { items }, lend))
}

// ---------------------------------------------------------------------------
// Canonical encoders, the inverse direction of the grammar. They exist at the
// specification level only, to state and prove that decoding inverts the
// standard encoding.
// ---------------------------------------------------------------------------

/// Minimal big-endian bytes of `v`: empty for zero, no leading zero byte.
pub open spec fn be_bytes(v: nat) -> Seq<u8>
    decreases v,
{
    if v == 0 {
        Seq::<u8>::empty()
    } else {
        be_bytes(v / 256).push((v % 256) as u8)
    }
}

pub proof fn lemma_be_bytes_val(v: nat)
    ensures
        be_val(be_bytes(v)) == v,
    decreases v,
{
    if v > 0 {
        lemma_be_bytes_val(v / 256);
        assert(be_bytes(v / 256).push((v % 256) as u8).drop_last() =~= be_bytes(v / 256));
    }
}

pub proof fn lemma_be_bytes_no_leading_zero(v: nat)
    requires
        v > 0,
    ensures
        be_bytes(v).len() > 0,
        be_bytes(v)[0] != 0,
    decreases v,
{
    if v / 256 > 0 {
        lemma_be_bytes_no_leading_zero(v / 256);
        assert(be_bytes(v)[0] == be_bytes(v / 256)[0]);
    } else {
        assert(v < 256);
        assert(v % 256 == v);
        assert(be_bytes(0nat) =~= Seq::<u8>::empty());
        assert(be_bytes(v) =~= seq![(v % 256) as u8]);
        assert(be_bytes(v)[0] == v);
    }
}

pub proof fn lemma_be_bytes_len(v: nat, n: nat)
    requires
        v < pow256(n),
    ensures
        be_bytes(v).len() <= n,
    decreases n,
{
    if v > 0 {
        assert(n > 0);
        assert(v / 256 < pow256((n - 1) as nat)) by (nonlinear_arith)
            requires
                v < pow256(n),
                pow256(n) == 256 * pow256((n - 1) as nat),
        ;
        lemma_be_bytes_len(v / 256, (n - 1) as nat);
    }
}

/// The length prefix of an item whose payload has `l` bytes; `base` is 0x80
/// for strings and 0xc0 for lists.
pub open spec fn enc_len(l: nat, base: nat) -> Seq<u8> {
    if l <= 55 {
        seq![(base + l) as u8]
    } else {
        seq![(base + 55 + be_bytes(l).len()) as u8] + be_bytes(l)
    }
}

/// The full encoding of an item with the given payload.
pub open spec fn enc_item(is_list: bool, payload: Seq<u8>) -> Seq<u8> {
    if !is_list && payload.len() == 1 && payload[0] < 0x80 {
        payload
    } else {
        enc_len(payload.len(), if is_list {
            0xc0
        } else {
            0x80
        }) + payload
    }
}

/// The canonical encoding of an unsigned integer.
pub open spec fn enc_uint(v: nat) -> Seq<u8> {
    enc_item(false, be_bytes(v))
}

/// The encoding of a byte string.
pub open spec fn enc_str(p: Seq<u8>) -> Seq<u8> {
    enc_item(false, p)
}

/// The encoding of a list with the given payload.
pub open spec fn enc_list(payload: Seq<u8>) -> Seq<u8> {
    enc_item(true, payload)
}

/// Decoding inverts encoding for item headers: wherever `s` carries the
/// encoding of an item, the header parser finds exactly that item's payload.
pub proof fn lemma_parse_hdr_enc(s: Seq<u8>, i: int, is_list: bool, payload: Seq<u8>)
    requires
        0 <= i,
        payload.len() < pow256(8),
        i + enc_item(is_list, payload).len() <= s.len(),
        s.subrange(i, i + enc_item(is_list, payload).len()) == enc_item(is_list, payload),
    ensures
        ({
            let e = enc_item(is_list, payload);
            let pstart = i + e.len() - payload.len();
            &&& parse_hdr(s, i) == Some(
                RlpHdr { is_list, pstart, plen: payload.len() as int },
            )
            &&& s.subrange(pstart, i + e.len()) == payload
        }),
{
    let e = enc_item(is_list, payload);
    let l = payload.len();
    let base: nat = if is_list {
        0xc0
    } else {
        0x80
    };
    assert(forall|j: int| 0 <= j < e.len() ==> s[i + j] == #[trigger] e[j]) by {
        assert(forall|j: int|
            0 <= j < e.len() ==> s.subrange(i, i + e.len())[j] == #[trigger] e[j]);
    }
    if !is_list && l == 1 && payload[0] < 0x80 {
        assert(s[i] == payload[0]);
        assert(s.subrange(i, i + 1) =~= payload);
    } else if l <= 55 {
        assert(e == enc_len(l, base) + payload);
        assert(e[0] == (base + l) as u8);
        assert(s[i] == (base + l) as u8);
        if !is_list && l == 1 {
            assert(payload[0] >= 0x80);
            assert(e[1] == payload[0]);
            assert(s[i + 1] == payload[0]);
        }
        assert(s.subrange(i + 1, i + 1 + l) =~= payload) by {
            assert(forall|j: int| 0 <= j < l ==> #[trigger] payload[j] == e[1 + j]);
        }
    } else {
        let lb = be_bytes(l);
        let k = lb.len();
        lemma_be_bytes_no_leading_zero(l);
        lemma_be_bytes_len(l, 8);
        assert(e == (seq![(base + 55 + k) as u8] + lb) + payload);
        assert(e[0] == (base + 55 + k) as u8);
        assert(s[i] == (base + 55 + k) as u8);
        assert(s.subrange(i + 1, i + 1 + k) =~= lb) by {
            assert(forall|j: int| 0 <= j < k ==> #[trigger] lb[j] == e[1 + j]);
        }
        assert(s[i + 1] == lb[0]);
        lemma_be_bytes_val(l);
        assert(be_val(s.subrange(i + 1, i + 1 + k)) == l);
        assert(s.subrange(i + 1 + k, i + 1 + k + l) =~= payload) by {
            assert(forall|j: int| 0 <= j < l ==> #[trigger] payload[j] == e[1 + k + j]);
        }
        let b = s[i] as int;
        if is_list {
            assert(b == 0xc0 + 55 + k);
            assert(b > 0xf7);
            assert(b - 0xf7 == k);
        } else {
            assert(b == 0x80 + 55 + k);
            assert(0xb7 < b <= 0xbf);
            assert(b - 0xb7 == k);
        }
    }
}

/// A 256-bit scalar's canonical payload bytes: at most 32, no leading zero.
pub open spec fn canon_u256(b: Seq<u8>) -> bool {
    &&& b.len() <= 32
    &&& b.len() > 0 ==> b[0] != 0
}

/// Decoding inverts encoding for unsigned integers.
pub proof fn lemma_parse_uint_enc(s: Seq<u8>, i: int, v: nat, max_len: int)
    requires
        0 <= i,
        0 <= max_len,
        v < pow256(max_len as nat),
        max_len <= 55,
        i + enc_uint(v).len() <= s.len(),
        s.subrange(i, i + enc_uint(v).len()) == enc_uint(v),
    ensures
        parse_uint(s, i, max_len) == Some((v, i + enc_uint(v).len())),
{
    lemma_be_bytes_len(v, max_len as nat);
    lemma_pow256_val8();
    lemma_parse_hdr_enc(s, i, false, be_bytes(v));
    lemma_be_bytes_val(v);
    if v > 0 {
        lemma_be_bytes_no_leading_zero(v);
    }
}

/// Decoding inverts encoding for 256-bit scalars kept as canonical bytes.
pub proof fn lemma_parse_u256_enc(s: Seq<u8>, i: int, b: Seq<u8>)
    requires
        0 <= i,
        canon_u256(b),
        i + enc_str(b).len() <= s.len(),
        s.subrange(i, i + enc_str(b).len()) == enc_str(b),
    ensures
        parse_u256(s, i) == Some((b, i + enc_str(b).len())),
{
    lemma_pow256_val8();
    lemma_parse_hdr_enc(s, i, false, b);
}

/// Decoding inverts encoding for arbitrary byte strings.
pub proof fn lemma_parse_bytes_enc(s: Seq<u8>, i: int, b: Seq<u8>)
    requires
        0 <= i,
        b.len() < pow256(8),
        i + enc_str(b).len() <= s.len(),
        s.subrange(i, i + enc_str(b).len()) == enc_str(b),
    ensures
        parse_bytes(s, i) == Some((b, i + enc_str(b).len())),
{
    lemma_parse_hdr_enc(s, i, false, b);
}

/// Decoding inverts encoding for 32-byte words.
pub proof fn lemma_parse_b256_enc(s: Seq<u8>, i: int, b: Seq<u8>)
    requires
        0 <= i,
        b.len() == 32,
        i + enc_str(b).len() <= s.len(),
        s.subrange(i, i + enc_str(b).len()) == enc_str(b),
    ensures
        parse_b256(s, i) == Some((b, i + enc_str(b).len())),
        enc_str(b).len() == 33,
{
    lemma_pow256_val8();
    lemma_parse_hdr_enc(s, i, false, b);
}

/// Decoding inverts encoding for addresses.
pub proof fn lemma_parse_address_enc(s: Seq<u8>, i: int, b: Seq<u8>)
    requires
        0 <= i,
        b.len() == 20,
        i + enc_str(b).len() <= s.len(),
        s.subrange(i, i + enc_str(b).len()) == enc_str(b),
    ensures
        parse_address(s, i) == Some((b, i + enc_str(b).len())),
        enc_str(b).len() == 21,
{
    lemma_pow256_val8();
    lemma_parse_hdr_enc(s, i, false, b);
}

/// The encoding of a recipient: empty string for creation, the address bytes
/// for a call.
pub open spec fn enc_txkind(k: crate::types::GTxKind) -> Seq<u8> {
    match k {
        crate::types::GTxKind::Create => enc_str(Seq::<u8>::empty()),
        crate::types::GTxKind::Call(a) => enc_str(a),
    }
}

/// A recipient is well formed when a call carries a 20-byte address.
pub open spec fn gtxkind_wf(k: crate::types::GTxKind) -> bool {
    match k {
        crate::types::GTxKind::Create => true,
        crate::types::GTxKind::Call(a) => a.len() == 20,
    }
}

/// Decoding inverts encoding for recipients.
pub proof fn lemma_parse_txkind_enc(s: Seq<u8>, i: int, k: crate::types::GTxKind)
    requires
        0 <= i,
        gtxkind_wf(k),
        i + enc_txkind(k).len() <= s.len(),
        s.subrange(i, i + enc_txkind(k).len()) == enc_txkind(k),
    ensures
        parse_txkind(s, i) == Some((k, i + enc_txkind(k).len())),
{
    lemma_pow256_val8();
    match k {
        crate::types::GTxKind::Create => {
            lemma_parse_hdr_enc(s, i, false, Seq::<u8>::empty());
        },
        crate::types::GTxKind::Call(a) => {
            lemma_parse_hdr_enc(s, i, false, a);
        },
    }
}

/// The storage keys of one entry, encoded back to back.
pub open spec fn enc_keys(keys: Seq<Seq<u8>>) -> Seq<u8>
    decreases keys.len(),
{
    if keys.len() == 0 {
        Seq::<u8>::empty()
    } else {
        enc_str(keys[0]) + enc_keys(keys.drop_first())
    }
}

/// An access-list entry is well formed when its address has 20 bytes and
/// every storage key 32.
pub open spec fn gaccess_wf(it: crate::types::GAccessItem) -> bool {
    &&& it.address.len() == 20
    &&& forall|k: int| 0 <= k < it.storage_keys.len() ==> (#[trigger] it.storage_keys[k]).len() == 32
}

/// The payload of one encoded access-list entry.
pub open spec fn enc_access_item_payload(it: crate::types::GAccessItem) -> Seq<u8> {
    enc_str(it.address) + enc_list(enc_keys(it.storage_keys))
}

/// One encoded access-list entry.
pub open spec fn enc_access_item(it: crate::types::GAccessItem) -> Seq<u8> {
    enc_list(enc_access_item_payload(it))
}

/// The entries of an access list, encoded back to back.
pub open spec fn enc_access_items(items: Seq<crate::types::GAccessItem>) -> Seq<u8>
    decreases items.len(),
{
    if items.len() == 0 {
        Seq::<u8>::empty()
    } else {
        enc_access_item(items[0]) + enc_access_items(items.drop_first())
    }
}

/// A whole encoded access list.
pub open spec fn enc_access_list(items: Seq<crate::types::GAccessItem>) -> Seq<u8> {
    enc_list(enc_access_items(items))
}

/// Where `s[i..]` carries a concatenation `a + b`, it carries `a` and then
/// `b`.
pub proof fn lemma_concat_parts(s: Seq<u8>, i: int, a: Seq<u8>, b: Seq<u8>)
    requires
        0 <= i,
        i + a.len() + b.len() <= s.len(),
        s.subrange(i, i + a.len() + b.len()) == a + b,
    ensures
        s.subrange(i, i + a.len()) == a,
        s.subrange(i + a.len(), i + a.len() + b.len()) == b,
{
    let t = a + b;
    let n = a.len() as int;
    let tot = i + t.len();
    assert(forall|m: int| 0 <= m < t.len() ==> s[i + m] == #[trigger] t[m]) by {
        assert(forall|m: int| 0 <= m < t.len() ==> s.subrange(i, tot)[m] == #[trigger] t[m]);
    }
    assert(s.subrange(i, i + n) =~= a) by {
        assert(forall|m: int| 0 <= m < n ==> #[trigger] a[m] == t[m]);
    }
    assert(s.subrange(i + n, tot) =~= b) by {
        assert(forall|m: int| 0 <= m < b.len() ==> #[trigger] b[m] == t[n + m]);
    }
}

/// Decoding inverts encoding for packed storage keys.
pub proof fn lemma_parse_keys_enc(s: Seq<u8>, i: int, keys: Seq<Seq<u8>>)
    requires
        0 <= i,
        forall|k: int| 0 <= k < keys.len() ==> (#[trigger] keys[k]).len() == 32,
        i + enc_keys(keys).len() <= s.len(),
        s.subrange(i, i + enc_keys(keys).len()) == enc_keys(keys),
    ensures
        parse_keys(s, i, i + enc_keys(keys).len()) == Some(keys),
    decreases keys.len(),
{
    if keys.len() == 0 {
        assert(keys =~= Seq::<Seq<u8>>::empty());
    } else {
        let e0 = enc_str(keys[0]);
        let rest = keys.drop_first();
        let erest = enc_keys(rest);
        assert(enc_keys(keys) == e0 + erest);
        lemma_concat_parts(s, i, e0, erest);
        lemma_parse_b256_enc(s, i, keys[0]);
        let j = i + e0.len();
        lemma_parse_keys_enc(s, j, rest);
        assert(seq![keys[0]] + rest =~= keys);
    }
}

/// Decoding inverts encoding for one access-list entry.
pub proof fn lemma_parse_access_item_enc(s: Seq<u8>, i: int, it: crate::types::GAccessItem)
    requires
        0 <= i,
        gaccess_wf(it),
        enc_access_item_payload(it).len() < pow256(8),
        i + enc_access_item(it).len() <= s.len(),
        s.subrange(i, i + enc_access_item(it).len()) == enc_access_item(it),
    ensures
        parse_access_item(s, i) == Some((it, i + enc_access_item(it).len())),
        enc_access_item(it).len() >= 1,
{
    let payload = enc_access_item_payload(it);
    lemma_parse_hdr_enc(s, i, true, payload);
    let e = enc_access_item(it);
    let p = i + e.len() - payload.len();
    let iend = i + e.len();
    let ea = enc_str(it.address);
    let ekl = enc_list(enc_keys(it.storage_keys));
    assert(payload == ea + ekl);
    lemma_concat_parts(s, p, ea, ekl);
    lemma_parse_address_enc(s, p, it.address);
    let j1 = p + ea.len();
    lemma_pow256_val8();
    lemma_parse_hdr_enc(s, j1, true, enc_keys(it.storage_keys));
    let kp = j1 + ekl.len() - enc_keys(it.storage_keys).len();
    assert(s.subrange(kp, j1 + ekl.len()) == enc_keys(it.storage_keys));
    lemma_parse_keys_enc(s, kp, it.storage_keys);
    assert(kp + enc_keys(it.storage_keys).len() == iend);
    assert(parse_keys(s, kp, iend) == Some(it.storage_keys));
}

/// Decoding inverts encoding for packed access-list entries.
pub proof fn lemma_parse_access_items_enc(
    s: Seq<u8>,
    i: int,
    items: Seq<crate::types::GAccessItem>,
)
    requires
        0 <= i,
        forall|k: int|
            0 <= k < items.len() ==> gaccess_wf(#[trigger] items[k]) && enc_access_item_payload(
                items[k],
            ).len() < pow256(8),
        i + enc_access_items(items).len() <= s.len(),
        s.subrange(i, i + enc_access_items(items).len()) == enc_access_items(items),
    ensures
        parse_access_items(s, i, i + enc_access_items(items).len()) == Some(items),
    decreases items.len(),
{
    if items.len() == 0 {
        assert(items =~= Seq::<crate::types::GAccessItem>::empty());
    } else {
        let e0 = enc_access_item(items[0]);
        let rest = items.drop_first();
        let erest = enc_access_items(rest);
        assert(enc_access_items(items) == e0 + erest);
        lemma_concat_parts(s, i, e0, erest);
        lemma_parse_access_item_enc(s, i, items[0]);
        let j = i + e0.len();
        lemma_parse_access_items_enc(s, j, rest);
        assert(seq![items[0]] + rest =~= items);
    }
}

/// Decoding inverts encoding for whole access lists.
pub proof fn lemma_parse_access_list_enc(s: Seq<u8>, i: int, items: Seq<crate::types::GAccessItem>)
    requires
        0 <= i,
        forall|k: int|
            0 <= k < items.len() ==> gaccess_wf(#[trigger] items[k]) && enc_access_item_payload(
                items[k],
            ).len() < pow256(8),
        enc_access_items(items).len() < pow256(8),
        i + enc_access_list(items).len() <= s.len(),
        s.subrange(i, i + enc_access_list(items).len()) == enc_access_list(items),
    ensures
        parse_access_list(s, i) == Some((items, i + enc_access_list(items).len())),
{
    let payload = enc_access_items(items);
    lemma_parse_hdr_enc(s, i, true, payload);
    let e = enc_access_list(items);
    let p = i + e.len() - payload.len();
    assert(s.subrange(p, p + payload.len()) == payload);
    lemma_parse_access_items_enc(s, p, items);
}

} // verus!
