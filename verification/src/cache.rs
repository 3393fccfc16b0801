//! The rules of the price cache: where an entry is stored and when it has
//! expired. Reading and writing the entries is left to the program.

use vstd::prelude::*;

use crate::text::concat;

verus! {

/// `ttl` read as a signed 64-bit count: values above `i64::MAX` wrap around.
pub open spec fn signed_ttl(ttl: u64) -> int {
    if ttl <= i64::MAX {
        ttl as int
    } else {
        ttl - 0x1_0000_0000_0000_0000
    }
}

/// A cache of JSON entries in a directory.
pub struct FileCache {
    pub dir: String,
}

impl FileCache {
    /// A cache in `dir`.
    pub fn new(dir: String) -> (c: FileCache)
        ensures
            c.dir@ == dir@,
    {
        FileCache { dir }
    }

    /// The file name of the entry for `key`: `<key>.json`.
    pub fn entry_name(key: &str) -> (s: String)
        ensures
            s@ == key@ + ".json"@,
    {
        concat(key, ".json")
    }

    /// When an entry stored at `now` for `ttl_seconds` expires: the TTL is
    /// taken as a signed count of seconds (a TTL above `i64::MAX` wraps to a
    /// negative one).
    pub fn expiry(now: i64, ttl_seconds: u64) -> (t: i64)
        requires
            i64::MIN <= now + signed_ttl(ttl_seconds) <= i64::MAX,
        ensures
            t == now + signed_ttl(ttl_seconds),
    {
        let ttl = ttl_seconds as i64;
        assert(ttl_seconds <= 0x7fff_ffff_ffff_ffffu64 ==> ttl == ttl_seconds) by (bit_vector)
            requires
                ttl == ttl_seconds as i64;
        assert(ttl_seconds > 0x7fff_ffff_ffff_ffffu64 ==> ttl == ttl_seconds - 0x1_0000_0000_0000_0000) by (bit_vector)
            requires
                ttl == ttl_seconds as i64;
        now + ttl
    }

    /// Whether an entry that expires at `expires_at` has expired at `now`:
    /// strictly after its expiry.
    pub fn is_expired(now: i64, expires_at: i64) -> (b: bool)
        ensures
            b == (now > expires_at),
    {
        now > expires_at
    }
}

} // verus!
