use vstd::prelude::*;

use crate::constants::MAX_RANDOMNESS_VALUES;
use crate::errors::BlockrunnersError;
use crate::state::PlayerState;

verus! {

/// Size in bytes of an oracle randomness account: an 8-byte discriminator and
/// the 400-byte record.
pub const RANDOMNESS_ACCOUNT_SIZE: usize = 408;

/// The discriminator every oracle randomness account starts with.
pub open spec fn randomness_discriminator() -> Seq<u8> {
    seq![10u8, 66u8, 229u8, 135u8, 220u8, 239u8, 217u8, 114u8]
}

/// The number that bytes encode, least significant byte first.
pub open spec fn le_value(s: Seq<u8>) -> nat
    decreases s.len(),
{
    if s.len() == 0 {
        0
    } else {
        s[0] as nat + 256 * le_value(s.drop_first())
    }
}

/// Whether `data` is too short, or carries the wrong discriminator, to be an
/// oracle randomness account.
pub open spec fn malformed_account(data: Seq<u8>) -> bool {
    data.len() < RANDOMNESS_ACCOUNT_SIZE || data.subrange(0, 8) != randomness_discriminator()
}

/// What this program reads from an oracle randomness account.
#[derive(Clone, Copy, Debug)]
pub struct RandomnessReading {
    /// Slot whose hash seeded the randomness
    pub seed_slot: u64,
    /// Slot at which the value was revealed
    pub reveal_slot: u64,
    /// The revealed random bytes
    pub value: [u8; 32],
}

impl RandomnessReading {
    /// The revealed bytes, which are current only at the reveal slot.
    pub fn get_value(&self, clock_slot: u64) -> (r: Option<[u8; 32]>)
        ensures
            clock_slot == self.reveal_slot ==> r == Some(self.value),
            clock_slot != self.reveal_slot ==> r is None,
    {
        if clock_slot != self.reveal_slot {
            None
        } else {
            Some(self.value)
        }
    }
}

/// Relies on switchboard_on_demand::RandomnessAccountData::parse, which refuses
/// data shorter than the account or with another discriminator, and otherwise
/// reads the record in place (little-endian integers, as on every Solana target).
/// The record must be 8-byte aligned there, so the bytes are first copied into
/// storage made of `u64` words (viewed as bytes through bytemuck::cast_slice_mut).
#[verifier::external_body]
pub(crate) fn parse_randomness_account(data: &[u8]) -> (r: Option<RandomnessReading>)
    ensures
        malformed_account(data@) ==> r is None,
        !malformed_account(data@) ==> r is Some,
        r matches Some(rd) ==> rd.seed_slot == le_value(data@.subrange(104, 112))
            && rd.reveal_slot == le_value(data@.subrange(144, 152)) && rd.value@ == data@.subrange(
            152,
            184,
        ),
{
    let mut words = vec![0u64; data.len() / 8 + 1];
    let bytes: &mut [u8] = bytemuck::cast_slice_mut(&mut words[..]);
    let aligned = &mut bytes[..data.len()];
    aligned.copy_from_slice(data);
    let cell = std::cell::RefCell::new(aligned);
    let parsed = switchboard_on_demand::RandomnessAccountData::parse(cell.borrow()).ok().map(
        |d| RandomnessReading { seed_slot: d.seed_slot, reveal_slot: d.reveal_slot, value: d.value },
    );
    parsed
}

/// Whether `a` and `b` name the same account.
pub fn same_key(a: &[u8; 32], b: &[u8; 32]) -> (r: bool)
    ensures
        r == (a@ == b@),
{
    let mut i: usize = 0;
    while i < 32
        invariant
            0 <= i <= 32,
            a@.len() == 32,
            b@.len() == 32,
            forall|j: int| 0 <= j < i ==> a@[j] == b@[j],
        decreases 32 - i,
    {
        if a[i] != b[i] {
            return false;
        }
        i = i + 1;
    }
    assert(a@ =~= b@);
    true
}

/// Whether the player's pending randomness comes from the oracle account `key`.
pub open spec fn bound_to(p: PlayerState, key: Seq<u8>) -> bool {
    p.randomness_account matches Some(k) && k@ == key
}

/// `a` and `b` agree on every field but the randomness queue.
pub open spec fn same_but_queue(a: PlayerState, b: PlayerState) -> bool {
    (PlayerState { randomness_value: a.randomness_value, ..b }) == a
}

/// The player after a request bound to oracle account `key` at `seed_slot`.
pub open spec fn requested(p: PlayerState, key: [u8; 32], seed_slot: u64) -> PlayerState {
    PlayerState {
        randomness_account: Some(key),
        randomness_slot: Some(seed_slot),
        randomness_value: None,
        ..p
    }
}

/// Why a request fails, given what the oracle account read as and the current slot.
pub open spec fn request_error(seed_slot: Option<u64>, current_slot: u64) -> Option<
    BlockrunnersError,
> {
    match seed_slot {
        None => Some(BlockrunnersError::RandomnessAccountParsing),
        Some(s) => if s + 1 == current_slot {
            None
        } else {
            Some(BlockrunnersError::RandomnessStale)
        },
    }
}

/// Why a reveal fails, given what the oracle account read as and the current slot.
pub open spec fn reveal_error(
    p: PlayerState,
    key: Seq<u8>,
    reading: Option<RandomnessReading>,
    clock_slot: u64,
) -> Option<BlockrunnersError> {
    if !bound_to(p, key) {
        Some(BlockrunnersError::Unauthorized)
    } else {
        match reading {
            None => Some(BlockrunnersError::RandomnessAccountParsingReveal),
            Some(rd) => if p.randomness_slot != Some(rd.seed_slot) {
                Some(BlockrunnersError::RandomnessExpired)
            } else if clock_slot != rd.reveal_slot {
                Some(BlockrunnersError::RandomnessNotResolved)
            } else {
                None
            },
        }
    }
}

/// Binds the player's randomness to the oracle account `oracle_key`, whose seed
/// slot read as `seed_slot` (`None`: it could not be parsed). The seed must be
/// from the slot just before `current_slot`. On failure nothing changes.
pub fn record_randomness_request(
    player_state: &mut PlayerState,
    oracle_key: &[u8; 32],
    seed_slot: Option<u64>,
    current_slot: u64,
) -> (r: Result<(), BlockrunnersError>)
    ensures
        request_error(seed_slot, current_slot) matches Some(e) ==> r == Err::<(), BlockrunnersError>(e)
            && *final(player_state) == *old(player_state),
        request_error(seed_slot, current_slot) is None ==> r is Ok && *final(player_state)
            == requested(*old(player_state), *oracle_key, seed_slot->0),
{
    match seed_slot {
        None => Err(BlockrunnersError::RandomnessAccountParsing),
        Some(s) => {
            if current_slot == 0 || s != current_slot - 1 {
                return Err(BlockrunnersError::RandomnessStale);
            }
            player_state.randomness_account = Some(*oracle_key);
            player_state.randomness_slot = Some(s);
            player_state.randomness_value = None;
            Ok(())
        },
    }
}

/// Binds the player's randomness to the oracle account `oracle_key` with data
/// `oracle_data`: the account must parse, and its seed slot must be the slot
/// just before `current_slot`. Any earlier pending value is dropped. On failure
/// nothing changes.
pub fn randomness_request(
    player_state: &mut PlayerState,
    oracle_key: &[u8; 32],
    oracle_data: &[u8],
    current_slot: u64,
) -> (r: Result<(), BlockrunnersError>)
    ensures
        malformed_account(oracle_data@) ==> r == Err::<(), BlockrunnersError>(
            BlockrunnersError::RandomnessAccountParsing,
        ),
        r is Err ==> *final(player_state) == *old(player_state),
        r is Err ==> r == Err::<(), BlockrunnersError>(BlockrunnersError::RandomnessAccountParsing)
            || r == Err::<(), BlockrunnersError>(BlockrunnersError::RandomnessStale),
        r is Ok ==> current_slot >= 1 && *final(player_state) == requested(
            *old(player_state),
            *oracle_key,
            (current_slot - 1) as u64,
        ),
        r is Ok ==> (current_slot - 1) as u64 == le_value(oracle_data@.subrange(104, 112)),
        r == Err::<(), BlockrunnersError>(BlockrunnersError::RandomnessStale) ==> le_value(
            oracle_data@.subrange(104, 112),
        ) + 1 != current_slot,
        !malformed_account(oracle_data@) && le_value(oracle_data@.subrange(104, 112)) + 1
            == current_slot ==> r is Ok,
{
    let reading = parse_randomness_account(oracle_data);
    let seed_slot = match reading {
        Some(rd) => Some(rd.seed_slot),
        None => None,
    };
    record_randomness_request(player_state, oracle_key, seed_slot, current_slot)
}

/// The revealed bytes of `reading` (`None`: the account could not be parsed),
/// if the player may take them: the oracle account must be the one bound at
/// request time, its seed slot unchanged, and the value current at `clock_slot`.
pub fn check_randomness_reveal(
    player_state: &PlayerState,
    oracle_key: &[u8; 32],
    reading: &Option<RandomnessReading>,
    clock_slot: u64,
) -> (r: Result<[u8; 32], BlockrunnersError>)
    ensures
        reveal_error(*player_state, oracle_key@, *reading, clock_slot) matches Some(e) ==> r == Err::<
            [u8; 32],
            BlockrunnersError,
        >(e),
        reveal_error(*player_state, oracle_key@, *reading, clock_slot) is None ==> r == Ok::<
            [u8; 32],
            BlockrunnersError,
        >(reading->0.value),
{
    let bound = match &player_state.randomness_account {
        Some(k) => same_key(k, oracle_key),
        None => false,
    };
    if !bound {
        return Err(BlockrunnersError::Unauthorized);
    }
    let rd = match reading {
        Some(rd) => rd,
        None => {
            return Err(BlockrunnersError::RandomnessAccountParsingReveal);
        },
    };
    if player_state.randomness_slot != Some(rd.seed_slot) {
        return Err(BlockrunnersError::RandomnessExpired);
    }
    match rd.get_value(clock_slot) {
        Some(v) => Ok(v),
        None => Err(BlockrunnersError::RandomnessNotResolved),
    }
}

/// The bytes of `value`, in order, as a queue.
fn queue_of(value: &[u8; 32]) -> (r: Vec<u8>)
    ensures
        r@ == value@,
{
    let mut queue: Vec<u8> = Vec::new();
    let mut i: usize = 0;
    while i < 32
        invariant
            0 <= i <= 32,
            value@.len() == 32,
            queue@ == value@.subrange(0, i as int),
        decreases 32 - i,
    {
        queue.push(value[i]);
        i = i + 1;
    }
    assert(queue@ =~= value@);
    queue
}

/// Stores the oracle's revealed bytes, read as `reading` (`None`: the account
/// could not be parsed), as the player's randomness queue, on the conditions of
/// `check_randomness_reveal`. On failure nothing changes.
pub fn record_randomness_reveal(
    player_state: &mut PlayerState,
    oracle_key: &[u8; 32],
    reading: Option<RandomnessReading>,
    clock_slot: u64,
) -> (r: Result<(), BlockrunnersError>)
    ensures
        reveal_error(*old(player_state), oracle_key@, reading, clock_slot) matches Some(e) ==> r
            == Err::<(), BlockrunnersError>(e) && *final(player_state) == *old(player_state),
        reveal_error(*old(player_state), oracle_key@, reading, clock_slot) is None ==> r is Ok
            && same_but_queue(*final(player_state), *old(player_state))
            && final(player_state).queue() == Some(reading->0.value@),
        old(player_state).wf() ==> final(player_state).wf(),
{
    let value = match check_randomness_reveal(player_state, oracle_key, &reading, clock_slot) {
        Ok(v) => v,
        Err(e) => {
            return Err(e);
        },
    };
    player_state.randomness_value = Some(queue_of(&value));
    Ok(())
}

/// Reveals the randomness the player requested, reading the oracle account
/// `oracle_key` with data `oracle_data` at `clock_slot`: the account must be the
/// one bound at request time, parse, keep its seed slot, and hold a value current
/// at `clock_slot`. The value becomes the player's randomness queue. On failure
/// nothing changes.
pub fn randomness_reveal(
    player_state: &mut PlayerState,
    oracle_key: &[u8; 32],
    oracle_data: &[u8],
    clock_slot: u64,
) -> (r: Result<(), BlockrunnersError>)
    ensures
        !bound_to(*old(player_state), oracle_key@) ==> r == Err::<(), BlockrunnersError>(
            BlockrunnersError::Unauthorized,
        ),
        bound_to(*old(player_state), oracle_key@) && malformed_account(oracle_data@) ==> r
            == Err::<(), BlockrunnersError>(BlockrunnersError::RandomnessAccountParsingReveal),
        r is Err ==> *final(player_state) == *old(player_state),
        r is Ok ==> bound_to(*old(player_state), oracle_key@)
            && same_but_queue(*final(player_state), *old(player_state))
            && final(player_state).queue() == Some(oracle_data@.subrange(152, 184)),
        r is Ok ==> old(player_state).randomness_slot == Some(
            le_value(oracle_data@.subrange(104, 112)) as u64,
        ) && clock_slot == le_value(oracle_data@.subrange(144, 152)),
        r is Err ==> r == Err::<(), BlockrunnersError>(BlockrunnersError::Unauthorized) || r == Err::<
            (),
            BlockrunnersError,
        >(BlockrunnersError::RandomnessAccountParsingReveal) || r == Err::<(), BlockrunnersError>(
            BlockrunnersError::RandomnessExpired,
        ) || r == Err::<(), BlockrunnersError>(BlockrunnersError::RandomnessNotResolved),
        r == Err::<(), BlockrunnersError>(BlockrunnersError::RandomnessExpired)
            ==> old(player_state).randomness_slot != Some(
            le_value(oracle_data@.subrange(104, 112)) as u64,
        ),
        r == Err::<(), BlockrunnersError>(BlockrunnersError::RandomnessNotResolved) ==> clock_slot
            != le_value(oracle_data@.subrange(144, 152)),
        bound_to(*old(player_state), oracle_key@) && !malformed_account(oracle_data@) && old(
        player_state).randomness_slot == Some(le_value(oracle_data@.subrange(104, 112)) as u64)
            && clock_slot == le_value(oracle_data@.subrange(144, 152)) ==> r is Ok,
{
    let reading = parse_randomness_account(oracle_data);
    record_randomness_reveal(player_state, oracle_key, reading, clock_slot)
}

/// Why consuming from the player's randomness fails.
pub open spec fn consume_error(p: PlayerState) -> Option<BlockrunnersError> {
    match p.queue() {
        None => Some(BlockrunnersError::RandomnessUnavailable),
        Some(q) => if q.len() == 0 {
            Some(BlockrunnersError::RandomnessFinished)
        } else {
            None
        },
    }
}

/// Takes the oldest unconsumed random byte. Fails with `RandomnessUnavailable`
/// when nothing was revealed and `RandomnessFinished` when all was consumed; on
/// failure nothing changes.
pub fn randomness_use(player_state: &mut PlayerState) -> (r: Result<u8, BlockrunnersError>)
    ensures
        consume_error(*old(player_state)) matches Some(e) ==> r == Err::<u8, BlockrunnersError>(e)
            && *final(player_state) == *old(player_state),
        consume_error(*old(player_state)) is None ==> r == Ok::<u8, BlockrunnersError>(
            old(player_state).queue()->0[0],
        ) && final(player_state).queue() == Some(old(player_state).queue()->0.drop_first())
            && same_but_queue(*final(player_state), *old(player_state)),
        old(player_state).wf() ==> final(player_state).wf(),
{
    match &mut player_state.randomness_value {
        None => Err(BlockrunnersError::RandomnessUnavailable),
        Some(values) => {
            if values.len() == 0 {
                return Err(BlockrunnersError::RandomnessFinished);
            }
            let first = values.remove(0);
            Ok(first)
        },
    }
}

} // verus!
