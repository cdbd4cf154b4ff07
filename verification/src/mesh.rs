//! The substrate mesh ledger: records, blocks sealed by a proof-of-work hash,
//! and the hash-linked chain that holds them.
//!
//! A floating-point value of a record is held as its JSON number text, the
//! compact form in which the block's canonical JSON writes it (`null` for a
//! value that is not finite).

use vstd::prelude::*;
use vstd::utf8::encode_utf8;
use crate::digest::{sha256, sha256_digest};
use crate::text::{
    chars_have_zero_prefix, decimal, has_zero_prefix, hex_bytes, hex_chars, json_string,
    lemma_hex_bytes_len, push_char, push_decimal,
    push_json_string, string_from_chars,
};

verus! {

/// A record carried by a block.
#[derive(Clone, Debug)]
pub enum SovereignPayload {
    LinguistHandshakeNftCertificate {
        title: String,
        flameholder: String,
        issuer: String,
        historical_sha256: String,
        /// JSON number texts of the acknowledged frequencies.
        acknowledged_frequencies: Vec<String>,
        root_languages: Vec<String>,
        tempo_key: String,
        device_node: String,
    },
    DigitalExecutorDeclaration {
        target_file: String,
        archive_source: String,
        archive_sha256: String,
        decryption_key_hint: String,
        unencrypted_zip_sha256: String,
        status: String,
    },
    RuntimeTelemetry {
        session_key_verification: String,
        telemetry_statement: String,
        /// JSON number text of the verification timestamp.
        verification_timestamp: String,
    },
    GenesisAnchor { info: String },
}

/// One block of the ledger.
#[derive(Clone, Debug)]
pub struct MeshBlock {
    pub index: u64,
    pub previous_hash: String,
    /// JSON number text of the block's timestamp in seconds.
    pub timestamp: String,
    pub data: SovereignPayload,
    pub nonce: u64,
    pub hash: String,
}

/// Comma-separated JSON string literals of the items.
pub open spec fn json_string_items(items: Seq<String>) -> Seq<char>
    decreases items.len(),
{
    if items.len() == 0 {
        Seq::empty()
    } else if items.len() == 1 {
        json_string(items[0]@)
    } else {
        json_string_items(items.drop_last()) + seq![','] + json_string(items.last()@)
    }
}

/// Comma-separated raw texts of the items (JSON numbers).
pub open spec fn json_number_items(items: Seq<String>) -> Seq<char>
    decreases items.len(),
{
    if items.len() == 0 {
        Seq::empty()
    } else if items.len() == 1 {
        items[0]@
    } else {
        json_number_items(items.drop_last()) + seq![','] + items.last()@
    }
}

/// A JSON array of strings.
pub open spec fn json_string_array(items: Seq<String>) -> Seq<char> {
    seq!['['] + json_string_items(items) + seq![']']
}

/// A JSON array of numbers given by their texts.
pub open spec fn json_number_array(items: Seq<String>) -> Seq<char> {
    seq!['['] + json_number_items(items) + seq![']']
}

/// The compact JSON object of a record: its fields and the `record_type`
/// tag, keys in byte order.
pub open spec fn payload_json(p: SovereignPayload) -> Seq<char> {
    match p {
        SovereignPayload::LinguistHandshakeNftCertificate {
            title,
            flameholder,
            issuer,
            historical_sha256,
            acknowledged_frequencies,
            root_languages,
            tempo_key,
            device_node,
        } => "{\"acknowledged_frequencies\":"@ + json_number_array(acknowledged_frequencies@)
            + ",\"device_node\":"@ + json_string(device_node@) + ",\"flameholder\":"@
            + json_string(flameholder@) + ",\"historical_sha256\":"@ + json_string(
            historical_sha256@,
        ) + ",\"issuer\":"@ + json_string(issuer@)
            + ",\"record_type\":\"LINGUIST_HANDSHAKE_NFT_CERTIFICATE\",\"root_languages\":"@
            + json_string_array(root_languages@) + ",\"tempo_key\":"@ + json_string(tempo_key@)
            + ",\"title\":"@ + json_string(title@) + "}"@,
        SovereignPayload::DigitalExecutorDeclaration {
            target_file,
            archive_source,
            archive_sha256,
            decryption_key_hint,
            unencrypted_zip_sha256,
            status,
        } => "{\"archive_sha256\":"@ + json_string(archive_sha256@) + ",\"archive_source\":"@
            + json_string(archive_source@) + ",\"decryption_key_hint\":"@ + json_string(
            decryption_key_hint@,
        ) + ",\"record_type\":\"DIGITAL_EXECUTOR_DECLARATION\",\"status\":"@ + json_string(
            status@,
        ) + ",\"target_file\":"@ + json_string(target_file@) + ",\"unencrypted_zip_sha256\":"@
            + json_string(unencrypted_zip_sha256@) + "}"@,
        SovereignPayload::RuntimeTelemetry {
            session_key_verification,
            telemetry_statement,
            verification_timestamp,
        } => "{\"record_type\":\"RUNTIME_TELEMETRY\",\"session_key_verification\":"@
            + json_string(session_key_verification@) + ",\"telemetry_statement\":"@
            + json_string(telemetry_statement@) + ",\"verification_timestamp\":"@
            + verification_timestamp@ + "}"@,
        SovereignPayload::GenesisAnchor { info } => "{\"info\":"@ + json_string(info@)
            + ",\"record_type\":\"GENESIS_ANCHOR\"}"@,
    }
}

/// The canonical JSON text of a block: every field but `hash`, in the
/// compact form, keys in byte order.
pub open spec fn block_json(b: MeshBlock) -> Seq<char> {
    "{\"data\":"@ + payload_json(b.data) + ",\"index\":"@ + decimal(b.index as nat)
        + ",\"nonce\":"@ + decimal(b.nonce as nat) + ",\"previous_hash\":"@ + json_string(
        b.previous_hash@,
    ) + ",\"timestamp\":"@ + b.timestamp@ + "}"@
}

/// The hash of a block: lowercase hex of the SHA-256 digest of the UTF-8
/// bytes of its canonical JSON.
pub open spec fn block_hash(b: MeshBlock) -> Seq<char> {
    hex_bytes(sha256_digest(encode_utf8(block_json(b))))
}

fn push_json_string_array(out: &mut String, items: &Vec<String>)
    ensures
        final(out)@ == old(out)@ + json_string_array(items@),
{
    let ghost init = out@;
    push_char(out, '[');
    let n = items.len();
    for i in 0..n
        invariant
            n == items@.len(),
            out@ == init + seq!['['] + json_string_items(items@.take(i as int)),
    {
        assert(items@.take(i + 1).drop_last() =~= items@.take(i as int));
        if i > 0 {
            push_char(out, ',');
        }
        push_json_string(out, items[i].as_str());
        assert(out@ =~= init + seq!['['] + json_string_items(items@.take(i + 1)));
    }
    push_char(out, ']');
    assert(items@.take(n as int) =~= items@);
    assert(out@ =~= init + json_string_array(items@));
}

fn push_json_number_array(out: &mut String, items: &Vec<String>)
    ensures
        final(out)@ == old(out)@ + json_number_array(items@),
{
    let ghost init = out@;
    push_char(out, '[');
    let n = items.len();
    for i in 0..n
        invariant
            n == items@.len(),
            out@ == init + seq!['['] + json_number_items(items@.take(i as int)),
    {
        assert(items@.take(i + 1).drop_last() =~= items@.take(i as int));
        if i > 0 {
            push_char(out, ',');
        }
        out.append(items[i].as_str());
        assert(out@ =~= init + seq!['['] + json_number_items(items@.take(i + 1)));
    }
    push_char(out, ']');
    assert(items@.take(n as int) =~= items@);
    assert(out@ =~= init + json_number_array(items@));
}

impl SovereignPayload {
    /// Appends the record's compact JSON object to `out`.
    pub fn push_json(&self, out: &mut String)
        ensures
            final(out)@ == old(out)@ + payload_json(*self),
    {
        let ghost init = out@;
        match self {
            SovereignPayload::LinguistHandshakeNftCertificate {
                title,
                flameholder,
                issuer,
                historical_sha256,
                acknowledged_frequencies,
                root_languages,
                tempo_key,
                device_node,
            } => {
                out.append("{\"acknowledged_frequencies\":");
                push_json_number_array(out, acknowledged_frequencies);
                out.append(",\"device_node\":");
                push_json_string(out, device_node.as_str());
                out.append(",\"flameholder\":");
                push_json_string(out, flameholder.as_str());
                out.append(",\"historical_sha256\":");
                push_json_string(out, historical_sha256.as_str());
                out.append(",\"issuer\":");
                push_json_string(out, issuer.as_str());
                out.append(
                    ",\"record_type\":\"LINGUIST_HANDSHAKE_NFT_CERTIFICATE\",\"root_languages\":",
                );
                push_json_string_array(out, root_languages);
                out.append(",\"tempo_key\":");
                push_json_string(out, tempo_key.as_str());
                out.append(",\"title\":");
                push_json_string(out, title.as_str());
                out.append("}");
            },
            SovereignPayload::DigitalExecutorDeclaration {
                target_file,
                archive_source,
                archive_sha256,
                decryption_key_hint,
                unencrypted_zip_sha256,
                status,
            } => {
                out.append("{\"archive_sha256\":");
                push_json_string(out, archive_sha256.as_str());
                out.append(",\"archive_source\":");
                push_json_string(out, archive_source.as_str());
                out.append(",\"decryption_key_hint\":");
                push_json_string(out, decryption_key_hint.as_str());
                out.append(",\"record_type\":\"DIGITAL_EXECUTOR_DECLARATION\",\"status\":");
                push_json_string(out, status.as_str());
                out.append(",\"target_file\":");
                push_json_string(out, target_file.as_str());
                out.append(",\"unencrypted_zip_sha256\":");
                push_json_string(out, unencrypted_zip_sha256.as_str());
                out.append("}");
            },
            SovereignPayload::RuntimeTelemetry {
                session_key_verification,
                telemetry_statement,
                verification_timestamp,
            } => {
                out.append("{\"record_type\":\"RUNTIME_TELEMETRY\",\"session_key_verification\":");
                push_json_string(out, session_key_verification.as_str());
                out.append(",\"telemetry_statement\":");
                push_json_string(out, telemetry_statement.as_str());
                out.append(",\"verification_timestamp\":");
                out.append(verification_timestamp.as_str());
                out.append("}");
            },
            SovereignPayload::GenesisAnchor { info } => {
                out.append("{\"info\":");
                push_json_string(out, info.as_str());
                out.append(",\"record_type\":\"GENESIS_ANCHOR\"}");
            },
        }
        assert(out@ =~= init + payload_json(*self));
    }
}

impl MeshBlock {
    /// The canonical JSON text of the block (all fields but `hash`).
    pub fn canonical_json(&self) -> (s: String)
        ensures
            s@ == block_json(*self),
    {
        let mut out = String::new();
        out.append("{\"data\":");
        self.data.push_json(&mut out);
        out.append(",\"index\":");
        push_decimal(&mut out, self.index);
        out.append(",\"nonce\":");
        push_decimal(&mut out, self.nonce);
        out.append(",\"previous_hash\":");
        push_json_string(&mut out, self.previous_hash.as_str());
        out.append(",\"timestamp\":");
        out.append(self.timestamp.as_str());
        out.append("}");
        assert(out@ =~= block_json(*self));
        out
    }

    /// The hexadecimal digits of the block's hash, as characters.
    fn hash_chars(&self) -> (v: Vec<char>)
        ensures
            v@ == block_hash(*self),
            v@.len() == 64,
    {
        let text = self.canonical_json();
        let digest = sha256(text.as_str().as_bytes());
        proof {
            lemma_hex_bytes_len(digest@);
        }
        hex_chars(digest.as_slice())
    }

    /// The block's hash: lowercase hex of the SHA-256 digest of its
    /// canonical JSON.
    pub fn calculate_hash(&self) -> (h: String)
        ensures
            h@ == block_hash(*self),
            h@.len() == 64,
    {
        let v = self.hash_chars();
        string_from_chars(&v)
    }
}

/// Why a block could not be sealed.
#[derive(Clone, Copy, Debug, PartialEq, Eq, Structural)]
pub enum MiningError {
    /// No nonce from the starting one up to `u64::MAX` gives a hash with the
    /// required zero prefix.
    NoNonceFound,
}

/// Whether a ledger was taken from storage or started afresh.
#[derive(Clone, Copy, Debug, PartialEq, Eq, Structural)]
pub enum SyncOutcome {
    /// The stored chain was adopted as it is.
    Loaded,
    /// No stored chain could be read: a new chain holding only the genesis
    /// block was created, and it still has to be written out.
    GenesisCreated,
}

/// The block with its nonce replaced.
pub open spec fn with_nonce(b: MeshBlock, n: u64) -> MeshBlock {
    MeshBlock { nonce: n, ..b }
}

/// Whether nonce `n` gives the block a hash with `difficulty` leading zeros.
pub open spec fn nonce_seals(b: MeshBlock, n: u64, difficulty: nat) -> bool {
    has_zero_prefix(block_hash(with_nonce(b, n)), difficulty)
}

/// A block is sealed when its stored hash is its hash and starts with
/// `difficulty` zero digits.
pub open spec fn block_sealed(b: MeshBlock, difficulty: nat) -> bool {
    &&& b.hash@ == block_hash(b)
    &&& has_zero_prefix(b.hash@, difficulty)
}

/// The block is sealed by the least nonce not below `from` that seals it.
pub open spec fn sealed_with_least_nonce(b: MeshBlock, from: u64, difficulty: nat) -> bool {
    &&& from <= b.nonce
    &&& block_sealed(b, difficulty)
    &&& forall|n: u64| from <= n < b.nonce ==> !nonce_seals(b, n, difficulty)
}

/// A chain is intact when every block is sealed and every block after the
/// first names its predecessor's hash.
pub open spec fn chain_valid(chain: Seq<MeshBlock>, difficulty: nat) -> bool {
    &&& forall|i: int| 0 <= i < chain.len() ==> block_sealed(#[trigger] chain[i], difficulty)
    &&& forall|i: int|
        0 < i < chain.len() ==> (#[trigger] chain[i]).previous_hash@ == chain[i - 1].hash@
}

/// The genesis information text.
pub open spec fn genesis_info() -> Seq<char> {
    "Genesis Anchor \u{2014} Tordial GS Manifold Sovereignty Established"@
}

/// The genesis timestamp's JSON number text.
pub open spec fn genesis_timestamp() -> Seq<char> {
    "1782455959.391051"@
}

/// The fields of the genesis block, before sealing.
pub open spec fn is_genesis(b: MeshBlock) -> bool {
    &&& b.index == 0
    &&& b.previous_hash@ == Seq::new(64, |i: int| '0')
    &&& b.timestamp@ == genesis_timestamp()
    &&& b.data matches SovereignPayload::GenesisAnchor { info } && info@ == genesis_info()
}

/// No nonce seals a genesis block at this difficulty.
pub open spec fn genesis_unsealable(difficulty: nat) -> bool {
    forall|b: MeshBlock, n: u64| is_genesis(b) ==> !#[trigger] nonce_seals(b, n, difficulty)
}

/// The fields of the block appended after `last` with this timestamp and
/// record, before sealing.
pub open spec fn is_successor(
    b: MeshBlock,
    last: MeshBlock,
    timestamp: Seq<char>,
    data: SovereignPayload,
) -> bool {
    &&& b.index == last.index + 1
    &&& b.previous_hash@ == last.hash@
    &&& b.timestamp@ == timestamp
    &&& b.data == data
}

/// The stored hash takes no part in a block's hash.
pub proof fn lemma_hash_ignores_stored_hash(b: MeshBlock, stored: String)
    ensures
        block_hash(MeshBlock { hash: stored, ..b }) == block_hash(b),
{
    assert(block_json(MeshBlock { hash: stored, ..b }) == block_json(b));
}

/// Searches nonces upward from the block's own until the hash has
/// `difficulty` leading zeros, then stores that nonce and hash.
pub fn mine_block(block: &mut MeshBlock, difficulty: usize) -> (r: Result<(), MiningError>)
    ensures
        final(block).index == old(block).index,
        final(block).previous_hash == old(block).previous_hash,
        final(block).timestamp == old(block).timestamp,
        final(block).data == old(block).data,
        match r {
            Ok(()) => sealed_with_least_nonce(*final(block), old(block).nonce, difficulty as nat),
            Err(_) => {
                &&& *final(block) == *old(block)
                &&& forall|n: u64|
                    old(block).nonce <= n ==> !nonce_seals(*old(block), n, difficulty as nat)
            },
        },
{
    let ghost orig = *block;
    let start = block.nonce;
    loop
        invariant
            orig == *old(block),
            start == orig.nonce,
            start <= block.nonce,
            block.index == orig.index,
            block.previous_hash == orig.previous_hash,
            block.timestamp == orig.timestamp,
            block.data == orig.data,
            block.hash == orig.hash,
            forall|n: u64| start <= n < block.nonce ==> !nonce_seals(orig, n, difficulty as nat),
        decreases u64::MAX - block.nonce,
    {
        let chars = block.hash_chars();
        assert(block_json(*block) == block_json(with_nonce(orig, block.nonce)));
        if chars_have_zero_prefix(&chars, difficulty) {
            block.hash = string_from_chars(&chars);
            assert forall|n: u64| start <= n < block.nonce implies !nonce_seals(
                *block,
                n,
                difficulty as nat,
            ) by {
                assert(block_json(with_nonce(*block, n)) == block_json(with_nonce(orig, n)));
                assert(!nonce_seals(orig, n, difficulty as nat));
            }
            return Ok(());
        }
        if block.nonce == u64::MAX {
            block.nonce = start;
            return Err(MiningError::NoNonceFound);
        }
        block.nonce = block.nonce + 1;
    }
}

/// A single sealed block is an intact chain.
pub proof fn lemma_single_sealed_block_is_valid_chain(b: MeshBlock, difficulty: nat)
    requires
        block_sealed(b, difficulty),
    ensures
        chain_valid(seq![b], difficulty),
{
}

/// Appending a sealed block that names the last block's hash keeps an intact
/// chain intact.
pub proof fn lemma_append_keeps_chain_valid(chain: Seq<MeshBlock>, b: MeshBlock, difficulty: nat)
    requires
        chain_valid(chain, difficulty),
        chain.len() > 0,
        b.previous_hash@ == chain.last().hash@,
        block_sealed(b, difficulty),
    ensures
        chain_valid(chain.push(b), difficulty),
{
    let c2 = chain.push(b);
    assert forall|i: int| 0 < i < c2.len() implies (#[trigger] c2[i]).previous_hash@ == c2[i
        - 1].hash@ by {
        if i < chain.len() {
            assert(c2[i] == chain[i]);
            assert(c2[i - 1] == chain[i - 1]);
        }
    }
}

/// The ledger: a chain of blocks sealed at a fixed difficulty, and the
/// storage it is kept in.
#[derive(Clone, Debug)]
pub struct SubstrateMeshBus {
    pub ledger_file: String,
    pub difficulty: usize,
    pub chain: Vec<MeshBlock>,
}

/// Builds and seals the genesis block.
pub fn genesis_block(difficulty: usize) -> (r: Result<MeshBlock, MiningError>)
    ensures
        match r {
            Ok(b) => is_genesis(b) && sealed_with_least_nonce(b, 0, difficulty as nat),
            Err(_) => genesis_unsealable(difficulty as nat),
        },
{
    let mut zeros = String::new();
    for i in 0..64usize
        invariant
            zeros@ == Seq::new(i as nat, |j: int| '0'),
    {
        push_char(&mut zeros, '0');
        assert(zeros@ =~= Seq::new((i + 1) as nat, |j: int| '0'));
    }
    let mut genesis = MeshBlock {
        index: 0,
        previous_hash: zeros,
        timestamp: String::from_str("1782455959.391051"),
        data: SovereignPayload::GenesisAnchor {
            info: String::from_str(
                "Genesis Anchor \u{2014} Tordial GS Manifold Sovereignty Established",
            ),
        },
        nonce: 0,
        hash: String::new(),
    };
    let ghost template = genesis;
    match mine_block(&mut genesis, difficulty) {
        Ok(()) => Ok(genesis),
        Err(e) => {
            assert forall|b: MeshBlock, n: u64| is_genesis(b) implies !#[trigger] nonce_seals(
                b,
                n,
                difficulty as nat,
            ) by {
                assert(payload_json(b.data) == payload_json(template.data));
                assert(block_json(with_nonce(b, n)) == block_json(with_nonce(template, n)));
                assert(!nonce_seals(template, n, difficulty as nat));
            }
            Err(e)
        },
    }
}

impl SubstrateMeshBus {
    /// A ledger over `ledger_file`, synchronised with what storage held
    /// (`stored`: the chain read from the file, or `None` when the file is
    /// absent or does not parse).
    pub fn new(ledger_file: &str, difficulty: usize, stored: Option<Vec<MeshBlock>>) -> (r: Result<
        (SubstrateMeshBus, SyncOutcome),
        MiningError,
    >)
        ensures
            match r {
                Ok((bus, outcome)) => {
                    &&& bus.ledger_file@ == ledger_file@
                    &&& bus.difficulty == difficulty
                    &&& match stored {
                        Some(c) => outcome is Loaded && bus.chain@ == c@,
                        None => {
                            &&& outcome is GenesisCreated
                            &&& bus.chain@.len() == 1
                            &&& is_genesis(bus.chain@[0])
                            &&& sealed_with_least_nonce(bus.chain@[0], 0, difficulty as nat)
                        },
                    }
                },
                Err(_) => stored is None && genesis_unsealable(difficulty as nat),
            },
    {
        let mut bus = SubstrateMeshBus {
            ledger_file: String::from_str(ledger_file),
            difficulty,
            chain: Vec::new(),
        };
        match bus.sync_with_disk(stored) {
            Ok(outcome) => Ok((bus, outcome)),
            Err(e) => Err(e),
        }
    }

    /// Adopts the stored chain when there is one; otherwise replaces the
    /// chain with a freshly sealed genesis block.
    pub fn sync_with_disk(&mut self, stored: Option<Vec<MeshBlock>>) -> (r: Result<
        SyncOutcome,
        MiningError,
    >)
        ensures
            final(self).ledger_file == old(self).ledger_file,
            final(self).difficulty == old(self).difficulty,
            match stored {
                Some(c) => r matches Ok(SyncOutcome::Loaded) && final(self).chain@ == c@,
                None => match r {
                    Ok(outcome) => {
                        &&& outcome is GenesisCreated
                        &&& final(self).chain@.len() == 1
                        &&& is_genesis(final(self).chain@[0])
                        &&& sealed_with_least_nonce(
                            final(self).chain@[0],
                            0,
                            old(self).difficulty as nat,
                        )
                        &&& chain_valid(final(self).chain@, old(self).difficulty as nat)
                    },
                    Err(_) => {
                        &&& final(self).chain@ == old(self).chain@
                        &&& genesis_unsealable(old(self).difficulty as nat)
                    },
                },
            },
    {
        match stored {
            Some(c) => {
                self.chain = c;
                Ok(SyncOutcome::Loaded)
            },
            None => {
                match genesis_block(self.difficulty) {
                    Ok(g) => {
                        let mut chain = Vec::new();
                        chain.push(g);
                        self.chain = chain;
                        proof {
                            lemma_single_sealed_block_is_valid_chain(
                                self.chain@[0],
                                self.difficulty as nat,
                            );
                            assert(self.chain@ =~= seq![self.chain@[0]]);
                        }
                        Ok(SyncOutcome::GenesisCreated)
                    },
                    Err(e) => Err(e),
                }
            },
        }
    }

    /// Seals a new block carrying `data` at `timestamp` (a JSON number
    /// text), links it to the last block and appends it. Returns its hash.
    pub fn append_record(&mut self, data: SovereignPayload, timestamp: String) -> (r: Result<
        String,
        MiningError,
    >)
        requires
            old(self).chain@.len() > 0,
            old(self).chain@.last().index < u64::MAX,
        ensures
            final(self).ledger_file == old(self).ledger_file,
            final(self).difficulty == old(self).difficulty,
            match r {
                Ok(h) => {
                    let last = old(self).chain@.last();
                    let b = final(self).chain@.last();
                    &&& final(self).chain@.len() == old(self).chain@.len() + 1
                    &&& final(self).chain@.drop_last() == old(self).chain@
                    &&& b.index == last.index + 1
                    &&& b.previous_hash@ == last.hash@
                    &&& b.timestamp == timestamp
                    &&& b.data == data
                    &&& sealed_with_least_nonce(b, 0, old(self).difficulty as nat)
                    &&& h@ == b.hash@
                    &&& chain_valid(old(self).chain@, old(self).difficulty as nat) ==> chain_valid(
                        final(self).chain@,
                        old(self).difficulty as nat,
                    )
                },
                Err(_) => {
                    &&& final(self).chain@ == old(self).chain@
                    &&& forall|b: MeshBlock, n: u64|
                        is_successor(b, old(self).chain@.last(), timestamp@, data) ==> !#[trigger] nonce_seals(
                            b,
                            n,
                            old(self).difficulty as nat,
                        )
                },
            },
    {
        let n = self.chain.len();
        let latest = &self.chain[n - 1];
        let mut new_block = MeshBlock {
            index: latest.index + 1,
            previous_hash: latest.hash.clone(),
            timestamp,
            data,
            nonce: 0,
            hash: String::new(),
        };
        let ghost candidate = new_block;
        match mine_block(&mut new_block, self.difficulty) {
            Ok(()) => {
                let commit_hash = new_block.hash.clone();
                let ghost old_chain = self.chain@;
                self.chain.push(new_block);
                proof {
                    assert(self.chain@.drop_last() =~= old_chain);
                    if chain_valid(old_chain, self.difficulty as nat) {
                        lemma_append_keeps_chain_valid(
                            old_chain,
                            self.chain@.last(),
                            self.difficulty as nat,
                        );
                        assert(self.chain@ =~= old_chain.push(self.chain@.last()));
                    }
                }
                Ok(commit_hash)
            },
            Err(e) => {
                assert forall|b: MeshBlock, n: u64|
                    is_successor(b, old(self).chain@.last(), timestamp@, data) implies !#[trigger] nonce_seals(
                    b,
                    n,
                    self.difficulty as nat,
                ) by {
                    assert(block_json(with_nonce(b, n)) == block_json(with_nonce(candidate, n)));
                    assert(!nonce_seals(candidate, n, self.difficulty as nat));
                }
                Err(e)
            },
        }
    }

    /// Whether every block is sealed at the ledger's difficulty and linked to
    /// its predecessor's hash.
    pub fn verify_chain_integrity(&self) -> (ok: bool)
        ensures
            ok == chain_valid(self.chain@, self.difficulty as nat),
    {
        let n = self.chain.len();
        for i in 0..n
            invariant
                n == self.chain@.len(),
                forall|j: int| 0 <= j < i ==> block_sealed(#[trigger] self.chain@[j], self.difficulty as nat),
                forall|j: int|
                    0 < j < i ==> (#[trigger] self.chain@[j]).previous_hash@ == self.chain@[j - 1].hash@,
        {
            let current = &self.chain[i];
            let chars = current.hash_chars();
            let computed = string_from_chars(&chars);
            if !(current.hash == computed) || !chars_have_zero_prefix(&chars, self.difficulty) {
                assert(!block_sealed(self.chain@[i as int], self.difficulty as nat));
                return false;
            }
            if i > 0 {
                let previous = &self.chain[i - 1];
                if !(current.previous_hash == previous.hash) {
                    assert(!((self.chain@[i as int]).previous_hash@ == self.chain@[i - 1].hash@));
                    return false;
                }
            }
        }
        true
    }
}


/// A chain is intact exactly when every block, at every position, stores
/// its own hash and that hash starts with `difficulty` zero digits, and
/// every block after the first names its predecessor's stored hash.
pub proof fn lemma_chain_valid_meaning(chain: Seq<MeshBlock>, difficulty: nat)
    ensures
        chain_valid(chain, difficulty) <==> {
            &&& forall|i: int|
                0 <= i < chain.len() ==> {
                    &&& (#[trigger] chain[i]).hash@ == block_hash(chain[i])
                    &&& difficulty <= chain[i].hash@.len()
                    &&& forall|j: int| 0 <= j < difficulty ==> chain[i].hash@[j] == '0'
                }
            &&& forall|i: int|
                0 < i < chain.len() ==> (#[trigger] chain[i]).previous_hash@ == chain[i - 1].hash@
        },
{
}

/// A block is sealed by the least nonce from `from` exactly when its nonce
/// is at least `from`, it stores its own hash, that hash starts with
/// `difficulty` zero digits, and for every nonce from `from` up to its own
/// the hash the block would have does not.
pub proof fn lemma_sealed_with_least_nonce_meaning(b: MeshBlock, from: u64, difficulty: nat)
    ensures
        sealed_with_least_nonce(b, from, difficulty) <==> {
            &&& from <= b.nonce
            &&& b.hash@ == block_hash(b)
            &&& difficulty <= b.hash@.len()
            &&& forall|j: int| 0 <= j < difficulty ==> b.hash@[j] == '0'
            &&& forall|n: u64|
                from <= n < b.nonce ==> !(difficulty <= (#[trigger] block_hash(
                    MeshBlock { nonce: n, ..b },
                )).len() && forall|j: int|
                    0 <= j < difficulty ==> block_hash(MeshBlock { nonce: n, ..b })[j] == '0')
        },
{
    assert forall|n: u64| from <= n < b.nonce implies (nonce_seals(b, n, difficulty) <==> (
    difficulty <= (#[trigger] block_hash(MeshBlock { nonce: n, ..b })).len() && forall|j: int|
        0 <= j < difficulty ==> block_hash(MeshBlock { nonce: n, ..b })[j] == '0')) by {
        assert(with_nonce(b, n) == MeshBlock { nonce: n, ..b });
    }
}

} // verus!
