//! Disk-backed sector storage: the three configuration profiles, the store
//! that pairs a configuration with a manager, and the manager's decisions on
//! the values that file operations hand it.
use crate::codec::{
    fr32_padded_stream, fr32_raw_prefix, in_codec_range, pad_stream, padded_bytes, padded_len,
    padded_prefix, unpad_stream, unpadded_bytes, unpadded_len, MAX_CODEC_BYTES,
};
use crate::errors::SectorManagerErr;
use rand::Rng;
use vstd::prelude::*;
use vstd::string::{StrSliceExecFns, StringExecFns};

verus! {

/// Padded sector size of the profile that exercises the proofs fully.
pub const REAL_SECTOR_SIZE: u64 = 128;

/// Padded sector size of the fast test profile.
pub const FAST_SECTOR_SIZE: u64 = 1024;

/// Padded sector size of the slow profile.
pub const SLOW_SECTOR_SIZE: u64 = 0x4000_0000;

/// Simulated seal delay of the fast test profile.
pub const FAST_DELAY_SECONDS: u32 = 10;

/// Simulated seal delay of the slow profile: four hours.
pub const SLOW_DELAY_SECONDS: u32 = 14400;

/// Number of characters in a generated sector-access name.
pub const ACCESS_NAME_LEN: usize = 32;

/// An ASCII letter or digit.
pub open spec fn is_alphanumeric(c: char) -> bool {
    ('a' <= c && c <= 'z') || ('A' <= c && c <= 'Z') || ('0' <= c && c <= '9')
}

/// A sector-access name: 32 ASCII letters and digits.
pub open spec fn is_access_name(s: Seq<char>) -> bool {
    s.len() == ACCESS_NAME_LEN && forall|i: int| 0 <= i < s.len() ==> is_alphanumeric(#[trigger] s[i])
}

/// `name` joined under the directory `root`, with one separator between them.
pub open spec fn joined_path(root: Seq<char>, name: Seq<char>) -> Seq<char> {
    if root.len() == 0 || root.last() == '/' {
        root + name
    } else {
        root + seq!['/'] + name
    }
}

/// Relies on rand's `Alphanumeric` distribution, drawn from the thread-local
/// generator: each character is an ASCII letter or digit.
#[verifier::external_body]
fn random_alphanumeric(len: usize) -> (r: String)
    ensures
        r@.len() == len,
        forall|i: int| 0 <= i < r@.len() ==> is_alphanumeric(#[trigger] r@[i]),
{
    rand::thread_rng().sample_iter(&rand::distributions::Alphanumeric).take(len).map(char::from).collect()
}

/// Joins `name` under the directory `root`.
pub fn join_path(root: &String, name: &String) -> (r: String)
    ensures
        r@ == joined_path(root@, name@),
{
    proof {
        reveal_strlit("/");
    }
    let mut p = root.clone();
    let n = root.as_str().unicode_len();
    if n > 0 && root.as_str().get_char(n - 1) != '/' {
        p.append("/");
    }
    p.append(name.as_str());
    proof {
        if root@.len() != 0 && root@.last() != '/' {
            assert(p@ =~= root@ + seq!['/'] + name@);
        }
    }
    p
}

/// Configuration of the profile that runs real sealing.
pub struct RealConfig {
    sector_bytes: u64,
}

/// Configuration of a profile whose sealing is simulated with a delay.
pub struct FakeConfig {
    sector_bytes: u64,
    delay_seconds: u32,
}

/// The deployment profiles that a store can be built for.
#[derive(Debug, Clone, Copy, PartialEq, Eq)]
pub enum ConfiguredStore {
    Live,
    Test,
    ProofTest,
}

impl RealConfig {
    pub closed spec fn spec_sector_bytes(&self) -> u64 {
        self.sector_bytes
    }

    /// Sealing is real.
    pub fn is_fake(&self) -> (r: bool)
        ensures
            !r,
    {
        false
    }

    /// No delay is simulated.
    pub fn simulate_delay_seconds(&self) -> (r: Option<u32>)
        ensures
            r is None,
    {
        None
    }

    /// The raw bytes that fit in a sector once padded.
    pub fn max_unsealed_bytes_per_sector(&self) -> (r: u64)
        requires
            in_codec_range(self.spec_sector_bytes() as nat),
        ensures
            r as nat == unpadded_len(self.spec_sector_bytes() as nat),
    {
        unpadded_bytes(self.sector_bytes)
    }

    /// The padded capacity of a sector.
    pub fn sector_bytes(&self) -> (r: u64)
        ensures
            r == self.spec_sector_bytes(),
    {
        self.sector_bytes
    }
}

impl FakeConfig {
    pub closed spec fn spec_sector_bytes(&self) -> u64 {
        self.sector_bytes
    }

    pub closed spec fn spec_delay_seconds(&self) -> u32 {
        self.delay_seconds
    }

    /// Sealing is simulated.
    pub fn is_fake(&self) -> (r: bool)
        ensures
            r,
    {
        true
    }

    /// The delay that simulated sealing should take.
    pub fn simulate_delay_seconds(&self) -> (r: Option<u32>)
        ensures
            r == Some(self.spec_delay_seconds()),
    {
        Some(self.delay_seconds)
    }

    /// The raw bytes that fit in a sector once padded.
    pub fn max_unsealed_bytes_per_sector(&self) -> (r: u64)
        requires
            in_codec_range(self.spec_sector_bytes() as nat),
        ensures
            r as nat == unpadded_len(self.spec_sector_bytes() as nat),
    {
        unpadded_bytes(self.sector_bytes)
    }

    /// The padded capacity of a sector.
    pub fn sector_bytes(&self) -> (r: u64)
        ensures
            r == self.spec_sector_bytes(),
    {
        self.sector_bytes
    }
}

/// The configuration of one profile.
pub enum SectorConfig {
    Real(RealConfig),
    Fake(FakeConfig),
}

impl SectorConfig {
    pub open spec fn spec_is_fake(&self) -> bool {
        self is Fake
    }

    pub open spec fn spec_delay(&self) -> Option<u32> {
        match self {
            SectorConfig::Real(_) => None,
            SectorConfig::Fake(c) => Some(c.spec_delay_seconds()),
        }
    }

    pub open spec fn spec_sector_bytes(&self) -> u64 {
        match self {
            SectorConfig::Real(c) => c.spec_sector_bytes(),
            SectorConfig::Fake(c) => c.spec_sector_bytes(),
        }
    }

    /// Whether sealing is simulated.
    pub fn is_fake(&self) -> (r: bool)
        ensures
            r == self.spec_is_fake(),
    {
        match self {
            SectorConfig::Real(c) => c.is_fake(),
            SectorConfig::Fake(c) => c.is_fake(),
        }
    }

    /// The delay that simulated sealing should take, if sealing is simulated.
    pub fn simulate_delay_seconds(&self) -> (r: Option<u32>)
        ensures
            r == self.spec_delay(),
    {
        match self {
            SectorConfig::Real(c) => c.simulate_delay_seconds(),
            SectorConfig::Fake(c) => c.simulate_delay_seconds(),
        }
    }

    /// The raw bytes that fit in a sector once padded.
    pub fn max_unsealed_bytes_per_sector(&self) -> (r: u64)
        requires
            in_codec_range(self.spec_sector_bytes() as nat),
        ensures
            r as nat == unpadded_len(self.spec_sector_bytes() as nat),
    {
        match self {
            SectorConfig::Real(c) => c.max_unsealed_bytes_per_sector(),
            SectorConfig::Fake(c) => c.max_unsealed_bytes_per_sector(),
        }
    }

    /// The padded capacity of a sector.
    pub fn sector_bytes(&self) -> (r: u64)
        ensures
            r == self.spec_sector_bytes(),
    {
        match self {
            SectorConfig::Real(c) => c.sector_bytes(),
            SectorConfig::Fake(c) => c.sector_bytes(),
        }
    }
}

/// Manages sector accesses, files under a staging and a sealed directory.
/// It holds no state of its own beyond the two roots: file operations are done
/// by the caller, which hands their outcomes to the methods here.
pub struct DiskManager {
    staging_path: String,
    sealed_path: String,
}

/// A write planned on a sector access: the file's new content, and the number
/// of padded bytes that the write adds.
pub struct UnsealedWrite {
    pub contents: Vec<u8>,
    pub num_bytes_written: u64,
}

/// The content of a sector access after appending `data` to the raw bytes held
/// by its current content `old`.
pub open spec fn appended_contents(old: Seq<u8>, data: Seq<u8>) -> Seq<u8> {
    let u = unpadded_len(old.len());
    fr32_padded_stream(fr32_raw_prefix(old, u) + data).subrange(
        0,
        padded_len(u + data.len()) as int,
    )
}

/// Whether appending `n` raw bytes to a file of `old_len` bytes stays within
/// the codec's range, both for the file read and for the file written.
pub open spec fn write_fits(old_len: nat, n: nat) -> bool {
    &&& in_codec_range(old_len)
    &&& in_codec_range(padded_len(unpadded_len(old_len) + n))
}

/// `contents` and `written` describe appending `data` to an access whose file
/// held `old`: the new content continues the padded stream of the raw bytes
/// held by `old`, is as long as the padded size of all raw bytes, reads back as
/// those raw bytes followed by `data`, and `written` is the growth of the
/// padded size.
pub open spec fn is_unsealed_write(old: Seq<u8>, data: Seq<u8>, contents: Seq<u8>, written: u64) -> bool {
    let u = unpadded_len(old.len());
    &&& contents == appended_contents(old, data)
    &&& contents.len() == padded_len(u + data.len())
    &&& fr32_raw_prefix(old, u).len() == u
    &&& fr32_raw_prefix(contents, u + data.len()) == fr32_raw_prefix(old, u) + data
    &&& written as nat == padded_len(u + data.len()) - padded_len(u)
}

/// Appending adds exactly the written raw bytes to the count that the file
/// reports: the count after a write is the count before plus the data's length,
/// and the new length is one that the count accepts. For a fresh, empty access
/// the count after the write is the data's length, and the write reports the
/// padded size of the data.
pub proof fn lemma_write_then_count(old: Seq<u8>, data: Seq<u8>, contents: Seq<u8>, written: u64)
    requires
        write_fits(old.len(), data.len()),
        is_unsealed_write(old, data, contents, written),
    ensures
        in_codec_range(contents.len()),
        unpadded_len(contents.len()) == unpadded_len(old.len()) + data.len(),
        old.len() == 0 ==> unpadded_len(contents.len()) == data.len(),
        old.len() == 0 ==> written as nat == padded_len(data.len()),
        old.len() == 0 ==> fr32_raw_prefix(contents, data.len()) == data,
{
    crate::codec::lemma_unpad_pad(unpadded_len(old.len()) + data.len());
    if old.len() == 0 {
        assert(unpadded_len(0) == 0);
        assert(padded_len(0) == 0);
        assert(fr32_raw_prefix(old, 0) =~= Seq::<u8>::empty());
        assert(fr32_raw_prefix(old, 0) + data =~= data);
    }
}

/// Two appends to a fresh access leave the same content as one write of both
/// pieces of data.
pub proof fn lemma_two_writes_match_one(
    d1: Seq<u8>,
    d2: Seq<u8>,
    first: Seq<u8>,
    w1: u64,
    second: Seq<u8>,
    w2: u64,
    once: Seq<u8>,
    w3: u64,
)
    requires
        write_fits(0, d1.len()),
        is_unsealed_write(Seq::empty(), d1, first, w1),
        is_unsealed_write(first, d2, second, w2),
        is_unsealed_write(Seq::empty(), d1 + d2, once, w3),
    ensures
        second == once,
        unpadded_len(second.len()) == d1.len() + d2.len(),
{
    lemma_write_then_count(Seq::empty(), d1, first, w1);
    let e = Seq::<u8>::empty();
    assert(fr32_raw_prefix(e, 0) =~= e);
    assert(fr32_raw_prefix(first, d1.len()) =~= d1);
    assert(fr32_raw_prefix(first, d1.len()) + d2 =~= fr32_raw_prefix(e, 0) + (d1 + d2));
    crate::codec::lemma_unpad_pad(d1.len() + d2.len());
}

/// Truncating to `size` raw bytes sets a length at which the file reports
/// exactly `size` raw bytes.
pub proof fn lemma_truncate_then_count(size: nat, new_len: nat)
    requires
        new_len == padded_len(size),
    ensures
        unpadded_len(new_len) == size,
{
    crate::codec::lemma_unpad_pad(size);
}

impl DiskManager {
    pub closed spec fn spec_staging_path(&self) -> Seq<char> {
        self.staging_path@
    }

    pub closed spec fn spec_sealed_path(&self) -> Seq<char> {
        self.sealed_path@
    }

    /// A manager over the given roots.
    pub fn new(sealed_path: String, staging_path: String) -> (r: DiskManager)
        ensures
            r.spec_sealed_path() == sealed_path@,
            r.spec_staging_path() == staging_path@,
    {
        DiskManager { staging_path, sealed_path }
    }

    /// A fresh access path under `root`: a random 32-character name.
    fn new_sector_access(root: &String) -> (r: String)
        ensures
            exists|name: Seq<char>| is_access_name(name) && r@ == joined_path(root@, name),
    {
        let name = random_alphanumeric(ACCESS_NAME_LEN);
        let r = join_path(root, &name);
        assert(is_access_name(name@) && r@ == joined_path(root@, name@));
        r
    }

    /// A fresh access path in the sealed directory. The caller creates the
    /// directory and the empty file.
    pub fn new_sealed_sector_access(&self) -> (r: String)
        ensures
            exists|name: Seq<char>|
                is_access_name(name) && r@ == joined_path(self.spec_sealed_path(), name),
    {
        DiskManager::new_sector_access(&self.sealed_path)
    }

    /// A fresh access path in the staging directory. The caller creates the
    /// directory and the empty file.
    pub fn new_staging_sector_access(&self) -> (r: String)
        ensures
            exists|name: Seq<char>|
                is_access_name(name) && r@ == joined_path(self.spec_staging_path(), name),
    {
        DiskManager::new_sector_access(&self.staging_path)
    }

    /// The outcome of allocating `access`: the results of creating its
    /// directory and its file, and whether its path could be given as text.
    pub fn sector_access_created(
        &self,
        created_dir: Result<(), String>,
        created_file: Result<(), String>,
        access: Option<String>,
    ) -> (r: Result<String, SectorManagerErr>)
        ensures
            created_dir matches Err(m) ==> r == Err::<String, _>(SectorManagerErr::ReceiverError(m)),
            created_dir is Ok ==> (created_file matches Err(m) ==> r == Err::<String, _>(
                SectorManagerErr::ReceiverError(m),
            )),
            created_dir is Ok && created_file is Ok ==> match access {
                Some(a) => r == Ok::<String, SectorManagerErr>(a),
                None => r matches Err(SectorManagerErr::ReceiverError(_)),
            },
    {
        match (created_dir, created_file) {
            (Err(m), _) => Err(SectorManagerErr::ReceiverError(m)),
            (Ok(_), Err(m)) => Err(SectorManagerErr::ReceiverError(m)),
            (Ok(_), Ok(_)) => match access {
                Some(a) => Ok(a),
                None => Err(SectorManagerErr::ReceiverError(String::from_str("could not create pbuf"))),
            },
        }
    }

    /// The raw bytes held by an access, given the padded length of its file
    /// or why the file could not be opened for reading.
    pub fn num_unsealed_bytes(&self, padded: Result<u64, String>) -> (r: Result<
        u64,
        SectorManagerErr,
    >)
        ensures
            padded matches Err(m) ==> r == Err::<u64, _>(SectorManagerErr::CallerError(m)),
            padded matches Ok(p) ==> (in_codec_range(p as nat) ==> r == Ok::<u64, SectorManagerErr>(
                unpadded_len(p as nat) as u64,
            )),
            padded matches Ok(p) ==> (!in_codec_range(p as nat) ==> r matches Err(
                SectorManagerErr::ReceiverError(_),
            )),
    {
        match padded {
            Err(m) => Err(SectorManagerErr::CallerError(m)),
            Ok(p) => {
                if p < MAX_CODEC_BYTES {
                    Ok(unpadded_bytes(p))
                } else {
                    Err(SectorManagerErr::ReceiverError(String::from_str("padded length out of range")))
                }
            },
        }
    }

    /// Plans appending the raw bytes `data` to an access, given the current
    /// content of its file or why the file could not be opened for writing.
    /// The data continues the padded stream where the raw bytes held by the
    /// file end; the new content replaces the old.
    pub fn write_unsealed(&self, current: Result<Vec<u8>, String>, data: &Vec<u8>) -> (r: Result<
        UnsealedWrite,
        SectorManagerErr,
    >)
        ensures
            current matches Err(m) ==> r == Err::<UnsealedWrite, _>(SectorManagerErr::CallerError(m)),
            current matches Ok(old) ==> (write_fits(old@.len(), data@.len()) <==> r is Ok),
            current is Ok && r is Err ==> r matches Err(SectorManagerErr::ReceiverError(_)),
            r matches Ok(w) ==> current matches Ok(old) && is_unsealed_write(
                old@,
                data@,
                w.contents@,
                w.num_bytes_written,
            ),
    {
        let old = match current {
            Err(m) => {
                return Err(SectorManagerErr::CallerError(m));
            },
            Ok(old) => old,
        };
        let p = old.len() as u64;
        if p >= MAX_CODEC_BYTES {
            return Err(SectorManagerErr::ReceiverError(String::from_str("access exceeds the codec's range")));
        }
        let u = unpadded_bytes(p);
        proof {
            crate::codec::lemma_unpadded_len_le(p as nat);
        }
        if data.len() as u64 >= MAX_CODEC_BYTES - u {
            proof {
                crate::codec::lemma_padded_len_ge(u as nat + data@.len());
            }
            return Err(SectorManagerErr::ReceiverError(String::from_str("write exceeds the codec's range")));
        }
        let total = u + data.len() as u64;
        let after = padded_bytes(total);
        if after >= MAX_CODEC_BYTES {
            return Err(SectorManagerErr::ReceiverError(String::from_str("write exceeds the codec's range")));
        }
        let raw = unpad_stream(&old, u);
        let ghost held = raw@;
        let mut stream = raw;
        let mut i: usize = 0;
        while i < data.len()
            invariant
                held == fr32_raw_prefix(old@, u as nat),
                i <= data@.len(),
                stream@ == held + data@.subrange(0, i as int),
            decreases data@.len() - i,
        {
            stream.push(data[i]);
            i = i + 1;
            assert(stream@ =~= held + data@.subrange(0, i as int));
        }
        assert(data@.subrange(0, data@.len() as int) =~= data@);
        let padded = pad_stream(&stream);
        let contents = match padded_prefix(&padded, total) {
            Some(c) => c,
            None => {
                return Err(SectorManagerErr::ReceiverError(String::from_str("padded stream too short")));
            },
        };
        let before = padded_bytes(u);
        proof {
            crate::codec::lemma_padded_len_monotonic(u as nat, total as nat);
        }
        Ok(UnsealedWrite { contents, num_bytes_written: after - before })
    }

    /// The padded length to cut an access down to so that it holds `size` raw
    /// bytes, given whether its file could be opened for writing.
    pub fn truncate_unsealed(&self, opened: Result<(), String>, size: u64) -> (r: Result<
        u64,
        SectorManagerErr,
    >)
        ensures
            opened matches Err(m) ==> r == Err::<u64, _>(SectorManagerErr::CallerError(m)),
            opened is Ok && in_codec_range(size as nat) ==> r == Ok::<u64, SectorManagerErr>(
                padded_len(size as nat) as u64,
            ),
            opened is Ok && !in_codec_range(size as nat) ==> r matches Err(
                SectorManagerErr::ReceiverError(_),
            ),
    {
        match opened {
            Err(m) => Err(SectorManagerErr::CallerError(m)),
            Ok(_) => {
                if size < MAX_CODEC_BYTES {
                    Ok(padded_bytes(size))
                } else {
                    Err(SectorManagerErr::ReceiverError(String::from_str("size out of range")))
                }
            },
        }
    }

    /// The outcome of setting an access's file length during truncation.
    pub fn truncated(&self, set_len: Result<(), String>) -> (r: Result<(), SectorManagerErr>)
        ensures
            set_len is Ok ==> r is Ok,
            set_len matches Err(m) ==> r == Err::<(), _>(SectorManagerErr::ReceiverError(m)),
    {
        match set_len {
            Ok(_) => Ok(()),
            Err(m) => Err(SectorManagerErr::ReceiverError(m)),
        }
    }
}

/// A configuration paired with the manager of its accesses.
pub struct ConcreteSectorStore {
    config: SectorConfig,
    manager: DiskManager,
}

impl ConcreteSectorStore {
    pub closed spec fn spec_config(&self) -> SectorConfig {
        self.config
    }

    pub closed spec fn spec_manager(&self) -> DiskManager {
        self.manager
    }

    /// The store's configuration.
    pub fn config(&self) -> (r: &SectorConfig)
        ensures
            *r == self.spec_config(),
    {
        &self.config
    }

    /// The store's manager.
    pub fn manager(&self) -> (r: &DiskManager)
        ensures
            *r == self.spec_manager(),
    {
        &self.manager
    }

    /// The raw bytes that fit in one sector of this store.
    pub open spec fn spec_capacity(&self) -> nat {
        unpadded_len(self.spec_config().spec_sector_bytes() as nat)
    }

    /// Plans appending `data` to an access of this store, as the manager does,
    /// but refuses a write that would take the access past the raw capacity of
    /// a sector: such a write leaves the content as it is and reports zero
    /// bytes written.
    pub fn write_unsealed(&self, current: Result<Vec<u8>, String>, data: &Vec<u8>) -> (r: Result<
        UnsealedWrite,
        SectorManagerErr,
    >)
        ensures
            current matches Err(m) ==> r == Err::<UnsealedWrite, _>(SectorManagerErr::CallerError(m)),
            current matches Ok(old) ==> (!in_codec_range(self.spec_config().spec_sector_bytes() as nat)
                || !in_codec_range(old@.len()) <==> r is Err),
            current is Ok && r is Err ==> r matches Err(SectorManagerErr::ReceiverError(_)),
            current matches Ok(old) ==> (r is Ok && unpadded_len(old@.len()) + data@.len()
                > self.spec_capacity() ==> r->Ok_0.contents@ == old@ && r->Ok_0.num_bytes_written
                == 0),
            current matches Ok(old) ==> (r is Ok && unpadded_len(old@.len()) + data@.len()
                <= self.spec_capacity() ==> is_unsealed_write(
                old@,
                data@,
                r->Ok_0.contents@,
                r->Ok_0.num_bytes_written,
            )),
    {
        let old = match current {
            Err(m) => {
                return Err(SectorManagerErr::CallerError(m));
            },
            Ok(old) => old,
        };
        let sector_bytes = self.config.sector_bytes();
        if sector_bytes >= MAX_CODEC_BYTES || old.len() as u64 >= MAX_CODEC_BYTES {
            return Err(SectorManagerErr::ReceiverError(String::from_str("size exceeds the codec's range")));
        }
        let capacity = self.config.max_unsealed_bytes_per_sector();
        let held = unpadded_bytes(old.len() as u64);
        if held > capacity || data.len() as u64 > capacity - held {
            return Ok(UnsealedWrite { contents: old, num_bytes_written: 0 });
        }
        proof {
            let total = held as nat + data@.len();
            crate::codec::lemma_padded_len_monotonic(total, capacity as nat);
            crate::codec::lemma_pad_unpad_le(sector_bytes as nat);
            assert(write_fits(old@.len(), data@.len()));
        }
        self.manager.write_unsealed(Ok(old), data)
    }
}

/// Whether `s` is a store over the given roots with the given profile values.
pub open spec fn is_store(
    s: ConcreteSectorStore,
    sealed_path: Seq<char>,
    staging_path: Seq<char>,
    is_fake: bool,
    delay: Option<u32>,
    sector_bytes: u64,
) -> bool {
    &&& s.spec_config().spec_is_fake() == is_fake
    &&& s.spec_config().spec_delay() == delay
    &&& s.spec_config().spec_sector_bytes() == sector_bytes
    &&& s.spec_manager().spec_sealed_path() == sealed_path
    &&& s.spec_manager().spec_staging_path() == staging_path
}

/// A store whose sealing is real, with the real sector size.
pub fn new_real_sector_store(sealed_path: String, staging_path: String) -> (r: ConcreteSectorStore)
    ensures
        is_store(r, sealed_path@, staging_path@, false, None, REAL_SECTOR_SIZE),
{
    ConcreteSectorStore {
        config: SectorConfig::Real(RealConfig { sector_bytes: REAL_SECTOR_SIZE }),
        manager: DiskManager::new(sealed_path, staging_path),
    }
}

/// A store for the profile `cs`: the slow simulated profile for `Live`, the
/// fast one for `Test`, and real sealing for `ProofTest`.
pub fn new_sector_store(cs: &ConfiguredStore, sealed_path: String, staging_path: String) -> (r:
    ConcreteSectorStore)
    ensures
        *cs == ConfiguredStore::Live ==> is_store(
            r,
            sealed_path@,
            staging_path@,
            true,
            Some(SLOW_DELAY_SECONDS),
            SLOW_SECTOR_SIZE,
        ),
        *cs == ConfiguredStore::Test ==> is_store(
            r,
            sealed_path@,
            staging_path@,
            true,
            Some(FAST_DELAY_SECONDS),
            FAST_SECTOR_SIZE,
        ),
        *cs == ConfiguredStore::ProofTest ==> is_store(
            r,
            sealed_path@,
            staging_path@,
            false,
            None,
            REAL_SECTOR_SIZE,
        ),
{
    match *cs {
        ConfiguredStore::Live => new_slow_fake_sector_store(sealed_path, staging_path),
        ConfiguredStore::Test => new_fast_fake_sector_store(sealed_path, staging_path),
        ConfiguredStore::ProofTest => new_real_sector_store(sealed_path, staging_path),
    }
}

/// A store with simulated sealing, a large sector and a long delay.
pub fn new_slow_fake_sector_store(sealed_path: String, staging_path: String) -> (r:
    ConcreteSectorStore)
    ensures
        is_store(r, sealed_path@, staging_path@, true, Some(SLOW_DELAY_SECONDS), SLOW_SECTOR_SIZE),
{
    new_fake_sector_store(sealed_path, staging_path, SLOW_SECTOR_SIZE, SLOW_DELAY_SECONDS)
}

/// A store with simulated sealing, a small sector and a short delay.
pub fn new_fast_fake_sector_store(sealed_path: String, staging_path: String) -> (r:
    ConcreteSectorStore)
    ensures
        is_store(r, sealed_path@, staging_path@, true, Some(FAST_DELAY_SECONDS), FAST_SECTOR_SIZE),
{
    new_fake_sector_store(sealed_path, staging_path, FAST_SECTOR_SIZE, FAST_DELAY_SECONDS)
}

/// A store with simulated sealing, the given sector size and delay.
pub fn new_fake_sector_store(
    sealed_path: String,
    staging_path: String,
    sector_bytes: u64,
    delay_seconds: u32,
) -> (r: ConcreteSectorStore)
    ensures
        is_store(r, sealed_path@, staging_path@, true, Some(delay_seconds), sector_bytes),
{
    ConcreteSectorStore {
        config: SectorConfig::Fake(FakeConfig { sector_bytes, delay_seconds }),
        manager: DiskManager::new(sealed_path, staging_path),
    }
}

} // verus!
