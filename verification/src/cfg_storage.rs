//! Settings as a block of bytes, for a store that keeps them across power
//! cycles.
//!
//! A block is a row of words. Each word takes eight bytes, least significant
//! byte first; a negative word is stored as its two's complement. A yes or
//! no is a word of 1 or 0, and any word but 0 reads as yes.

use vstd::prelude::*;
use vstd::bytes::{spec_u64_from_le_bytes, spec_u64_to_le_bytes, u64_from_le_bytes, u64_to_le_bytes};
use vstd::bytes::lemma_auto_spec_u64_to_from_le_bytes;
use vstd::slice::slice_subrange;
use crate::pid::{CtrlCoeffGroup, CtrlCoeffsPR, CtrlCoeffsYT, LowpassCutoff};
use crate::state::UserCfg;

verus! {

/// Words in the block of the user's settings.
pub const USER_CFG_WORDS: usize = 21;

/// Bytes in the block of the user's settings.
pub const USER_CFG_SIZE: usize = 8 * USER_CFG_WORDS;

/// Words in the block of the gains.
pub const COEFFS_WORDS: usize = 34;

/// Bytes in the block of the gains.
pub const COEFFS_SIZE: usize = 8 * COEFFS_WORDS;

/// The eight bytes of a word.
pub open spec fn word_bytes(x: i64) -> Seq<u8> {
    spec_u64_to_le_bytes(x as u64)
}

/// The word that eight bytes hold.
pub open spec fn word_of(b: Seq<u8>) -> i64
    recommends
        b.len() == 8,
{
    spec_u64_from_le_bytes(b) as i64
}

/// The bytes of a row of words.
pub open spec fn words_to_bytes(words: Seq<i64>) -> Seq<u8> {
    Seq::new(8 * words.len(), |i: int| word_bytes(words[i / 8])[i % 8])
}

/// The first `n` words that a block of bytes holds.
pub open spec fn bytes_to_words(bytes: Seq<u8>, n: nat) -> Seq<i64>
    recommends
        bytes.len() >= 8 * n,
{
    Seq::new(n, |k: int| word_of(bytes.subrange(8 * k, 8 * k + 8)))
}

/// A word that was written as bytes is read back as it was.
pub proof fn lemma_word_round_trip(x: i64)
    ensures
        word_bytes(x).len() == 8,
        word_of(word_bytes(x)) == x,
{
    lemma_auto_spec_u64_to_from_le_bytes();
    assert(((x as u64) as i64) == x) by (bit_vector);
}

/// A row of words that was written as bytes is read back as it was, also
/// when more bytes follow it.
pub proof fn lemma_words_round_trip(words: Seq<i64>, rest: Seq<u8>)
    ensures
        words_to_bytes(words).len() == 8 * words.len(),
        bytes_to_words(words_to_bytes(words) + rest, words.len()) == words,
{
    let bytes = words_to_bytes(words) + rest;
    assert forall|k: int| 0 <= k < words.len() implies #[trigger] bytes_to_words(bytes, words.len())[k]
        == words[k] by {
        lemma_word_round_trip(words[k]);
        let piece = bytes.subrange(8 * k, 8 * k + 8);
        assert forall|i: int| 0 <= i < 8 implies piece[i] == word_bytes(words[k])[i] by {
            assert((8 * k + i) / 8 == k);
            assert((8 * k + i) % 8 == i);
        }
        assert(piece =~= word_bytes(words[k]));
    }
    assert(bytes_to_words(bytes, words.len()) =~= words);
}

/// Write a row of words as bytes.
pub fn pack_words(words: &Vec<i64>) -> (r: Vec<u8>)
    requires
        8 * words@.len() <= usize::MAX,
    ensures
        r@ == words_to_bytes(words@),
{
    let mut out: Vec<u8> = Vec::new();
    let mut k: usize = 0;
    proof {
        lemma_auto_spec_u64_to_from_le_bytes();
    }
    while k < words.len()
        invariant
            k <= words@.len(),
            8 * words@.len() <= usize::MAX,
            out@.len() == 8 * k,
            forall|i: int| 0 <= i < 8 * k ==> #[trigger] out@[i] == word_bytes(words@[i / 8])[i % 8],
            forall|x: u64| #[trigger] spec_u64_to_le_bytes(x).len() == 8,
        decreases words@.len() - k,
    {
        let b = u64_to_le_bytes(#[verifier::truncate] (words[k] as u64));
        let mut j: usize = 0;
        while j < 8
            invariant
                j <= 8,
                k < words@.len(),
                b@ == word_bytes(words@[k as int]),
                b@.len() == 8,
                out@.len() == 8 * k + j,
                forall|i: int| 0 <= i < 8 * k + j ==> #[trigger] out@[i] == word_bytes(words@[i / 8])[i % 8],
            decreases 8 - j,
        {
            out.push(b[j]);
            j += 1;
        }
        k += 1;
    }
    assert(out@ =~= words_to_bytes(words@));
    out
}

/// Read the first `n` words of a block of bytes.
pub fn unpack_words(buf: &[u8], n: usize) -> (r: Vec<i64>)
    requires
        8 * n <= buf@.len(),
    ensures
        r@ == bytes_to_words(buf@, n as nat),
{
    let mut out: Vec<i64> = Vec::new();
    let mut k: usize = 0;
    let len = buf.len();
    while k < n
        invariant
            k <= n,
            len == buf@.len(),
            8 * n <= buf@.len(),
            out@.len() == k,
            forall|i: int| 0 <= i < k ==> #[trigger] out@[i] == word_of(buf@.subrange(8 * i, 8 * i + 8)),
        decreases n - k,
    {
        let piece = slice_subrange(buf, 8 * k, 8 * k + 8);
        let u = u64_from_le_bytes(piece);
        out.push(#[verifier::truncate] (u as i64));
        k += 1;
    }
    assert(out@ =~= bytes_to_words(buf@, n as nat));
    out
}

/// A yes or no as a word.
pub open spec fn flag_word(b: bool) -> i64 {
    if b {
        1
    } else {
        0
    }
}

/// The words of the user's settings, in the order of the block.
pub open spec fn user_cfg_words(c: UserCfg) -> Seq<i64> {
    seq![
        c.ceiling,
        c.max_angle,
        c.max_velocity,
        c.idle_pwr,
        c.pitch_input_range.0,
        c.pitch_input_range.1,
        c.roll_input_range.0,
        c.roll_input_range.1,
        c.yaw_input_range.0,
        c.yaw_input_range.1,
        c.throttle_input_range.0,
        c.throttle_input_range.1,
        flag_word(c.mapping_obstacles),
        c.max_speed_hor,
        c.max_speed_ver,
        flag_word(c.gps_attached),
        flag_word(c.tof_attached),
        flag_word(c.motors_reversed.0),
        flag_word(c.motors_reversed.1),
        flag_word(c.motors_reversed.2),
        flag_word(c.motors_reversed.3),
    ]
}

/// The user's settings that a row of words holds.
pub open spec fn user_cfg_of(w: Seq<i64>) -> UserCfg
    recommends
        w.len() >= USER_CFG_WORDS,
{
    UserCfg {
        ceiling: w[0],
        max_angle: w[1],
        max_velocity: w[2],
        idle_pwr: w[3],
        pitch_input_range: (w[4], w[5]),
        roll_input_range: (w[6], w[7]),
        yaw_input_range: (w[8], w[9]),
        throttle_input_range: (w[10], w[11]),
        mapping_obstacles: w[12] != 0,
        max_speed_hor: w[13],
        max_speed_ver: w[14],
        gps_attached: w[15] != 0,
        tof_attached: w[16] != 0,
        motors_reversed: (w[17] != 0, w[18] != 0, w[19] != 0, w[20] != 0),
    }
}

fn flag(b: bool) -> (r: i64)
    ensures
        r == flag_word(b),
{
    if b {
        1
    } else {
        0
    }
}

impl UserCfg {
    /// The settings as a block of bytes, to be written to the store.
    pub fn save(&self) -> (r: Vec<u8>)
        ensures
            r@ == words_to_bytes(user_cfg_words(*self)),
            r@.len() == USER_CFG_SIZE,
    {
        user_cfg_to_bytes(self)
    }

    /// Read the settings from a block of bytes; nothing if the block is
    /// shorter than `USER_CFG_SIZE`. Bytes beyond that are not looked at.
    pub fn load(buf: &[u8]) -> (r: Option<UserCfg>)
        ensures
            buf@.len() >= USER_CFG_SIZE ==> r == Some(
                user_cfg_of(bytes_to_words(buf@, USER_CFG_WORDS as nat)),
            ),
            buf@.len() < USER_CFG_SIZE ==> r.is_none(),
    {
        user_cfg_from_bytes(buf)
    }
}

impl CtrlCoeffGroup {
    /// The gains as a block of bytes, to be written to the store.
    pub fn to_bytes(&self) -> (r: Vec<u8>)
        ensures
            r@ == words_to_bytes(coeffs_words(*self)),
            r@.len() == COEFFS_SIZE,
    {
        coeffs_to_bytes(self)
    }

    /// Read the gains from a block of bytes; nothing if the block is shorter
    /// than `COEFFS_SIZE` or a cutoff word names no cutoff. Bytes beyond the
    /// block are not looked at.
    pub fn from_bytes(buf: &[u8]) -> (r: Option<CtrlCoeffGroup>)
        ensures
            buf@.len() >= COEFFS_SIZE ==> r == coeffs_of(bytes_to_words(buf@, COEFFS_WORDS as nat)),
            buf@.len() < COEFFS_SIZE ==> r.is_none(),
    {
        coeffs_from_bytes(buf)
    }
}

fn user_cfg_to_bytes(c: &UserCfg) -> (r: Vec<u8>)
    ensures
        r@ == words_to_bytes(user_cfg_words(*c)),
        r@.len() == USER_CFG_SIZE,
{
    let words: Vec<i64> = vec![
        c.ceiling,
        c.max_angle,
        c.max_velocity,
        c.idle_pwr,
        c.pitch_input_range.0,
        c.pitch_input_range.1,
        c.roll_input_range.0,
        c.roll_input_range.1,
        c.yaw_input_range.0,
        c.yaw_input_range.1,
        c.throttle_input_range.0,
        c.throttle_input_range.1,
        flag(c.mapping_obstacles),
        c.max_speed_hor,
        c.max_speed_ver,
        flag(c.gps_attached),
        flag(c.tof_attached),
        flag(c.motors_reversed.0),
        flag(c.motors_reversed.1),
        flag(c.motors_reversed.2),
        flag(c.motors_reversed.3),
    ];
    assert(words@ =~= user_cfg_words(*c));
    pack_words(&words)
}

fn user_cfg_from_bytes(buf: &[u8]) -> (r: Option<UserCfg>)
    ensures
        buf@.len() >= USER_CFG_SIZE ==> r == Some(
            user_cfg_of(bytes_to_words(buf@, USER_CFG_WORDS as nat)),
        ),
        buf@.len() < USER_CFG_SIZE ==> r.is_none(),
{
    if buf.len() < USER_CFG_SIZE {
        return None;
    }
    let w = unpack_words(buf, USER_CFG_WORDS);
    Some(
        UserCfg {
            ceiling: w[0],
            max_angle: w[1],
            max_velocity: w[2],
            idle_pwr: w[3],
            pitch_input_range: (w[4], w[5]),
            roll_input_range: (w[6], w[7]),
            yaw_input_range: (w[8], w[9]),
            throttle_input_range: (w[10], w[11]),
            mapping_obstacles: w[12] != 0,
            max_speed_hor: w[13],
            max_speed_ver: w[14],
            gps_attached: w[15] != 0,
            tof_attached: w[16] != 0,
            motors_reversed: (w[17] != 0, w[18] != 0, w[19] != 0, w[20] != 0),
        },
    )
}

/// User's settings that were written as a block are read back as they were,
/// also when more bytes follow the block.
pub proof fn lemma_user_cfg_round_trip(c: UserCfg, rest: Seq<u8>)
    ensures
        user_cfg_of(
            bytes_to_words(words_to_bytes(user_cfg_words(c)) + rest, USER_CFG_WORDS as nat),
        ) == c,
{
    lemma_words_round_trip(user_cfg_words(c), rest);
}

/// The word of a filter cutoff.
pub open spec fn cutoff_word(c: LowpassCutoff) -> i64 {
    match c {
        LowpassCutoff::H500 => 0,
        LowpassCutoff::H1k => 1,
        LowpassCutoff::H10k => 2,
        LowpassCutoff::H20k => 3,
    }
}

/// The filter cutoff that a word names, if it names one.
pub open spec fn cutoff_of(w: i64) -> Option<LowpassCutoff> {
    if w == 0 {
        Some(LowpassCutoff::H500)
    } else if w == 1 {
        Some(LowpassCutoff::H1k)
    } else if w == 2 {
        Some(LowpassCutoff::H10k)
    } else if w == 3 {
        Some(LowpassCutoff::H20k)
    } else {
        None
    }
}

/// The words of the gains of pitch or roll.
pub open spec fn pr_words(c: CtrlCoeffsPR) -> Seq<i64> {
    seq![
        c.k_p_rate,
        c.k_i_rate,
        c.k_d_rate,
        c.k_p_attitude,
        c.k_i_attitude,
        c.k_d_attitude,
        c.k_p_velocity,
        c.k_i_velocity,
        cutoff_word(c.pid_deriv_lowpass_cutoff_rate),
        cutoff_word(c.pid_deriv_lowpass_cutoff_attitude),
    ]
}

/// The words of the gains of yaw or thrust.
pub open spec fn yt_words(c: CtrlCoeffsYT) -> Seq<i64> {
    seq![
        c.k_p_rate,
        c.k_i_rate,
        c.k_d_rate,
        c.k_p_attitude,
        c.k_i_attitude,
        c.k_s_attitude,
        cutoff_word(c.pid_deriv_lowpass_cutoff),
    ]
}

/// The words of the gains, in the order of the block: pitch, roll, yaw, thrust.
pub open spec fn coeffs_words(c: CtrlCoeffGroup) -> Seq<i64> {
    pr_words(c.pitch) + pr_words(c.roll) + yt_words(c.yaw) + yt_words(c.thrust)
}

/// The gains of pitch or roll that ten words from `at` on hold, if the two
/// cutoff words name cutoffs.
pub open spec fn pr_of(w: Seq<i64>, at: int) -> Option<CtrlCoeffsPR> {
    if cutoff_of(w[at + 8]).is_some() && cutoff_of(w[at + 9]).is_some() {
        Some(
            CtrlCoeffsPR {
                k_p_rate: w[at],
                k_i_rate: w[at + 1],
                k_d_rate: w[at + 2],
                k_p_attitude: w[at + 3],
                k_i_attitude: w[at + 4],
                k_d_attitude: w[at + 5],
                k_p_velocity: w[at + 6],
                k_i_velocity: w[at + 7],
                pid_deriv_lowpass_cutoff_rate: cutoff_of(w[at + 8]).unwrap(),
                pid_deriv_lowpass_cutoff_attitude: cutoff_of(w[at + 9]).unwrap(),
            },
        )
    } else {
        None
    }
}

/// The gains of yaw or thrust that seven words from `at` on hold, if the
/// cutoff word names a cutoff.
pub open spec fn yt_of(w: Seq<i64>, at: int) -> Option<CtrlCoeffsYT> {
    if cutoff_of(w[at + 6]).is_some() {
        Some(
            CtrlCoeffsYT {
                k_p_rate: w[at],
                k_i_rate: w[at + 1],
                k_d_rate: w[at + 2],
                k_p_attitude: w[at + 3],
                k_i_attitude: w[at + 4],
                k_s_attitude: w[at + 5],
                pid_deriv_lowpass_cutoff: cutoff_of(w[at + 6]).unwrap(),
            },
        )
    } else {
        None
    }
}

/// The gains that a row of words holds, if every cutoff word names a cutoff.
pub open spec fn coeffs_of(w: Seq<i64>) -> Option<CtrlCoeffGroup>
    recommends
        w.len() >= COEFFS_WORDS,
{
    if pr_of(w, 0).is_some() && pr_of(w, 10).is_some() && yt_of(w, 20).is_some() && yt_of(w, 27).is_some() {
        Some(
            CtrlCoeffGroup {
                pitch: pr_of(w, 0).unwrap(),
                roll: pr_of(w, 10).unwrap(),
                yaw: yt_of(w, 20).unwrap(),
                thrust: yt_of(w, 27).unwrap(),
            },
        )
    } else {
        None
    }
}

fn cutoff_code(c: LowpassCutoff) -> (r: i64)
    ensures
        r == cutoff_word(c),
{
    match c {
        LowpassCutoff::H500 => 0,
        LowpassCutoff::H1k => 1,
        LowpassCutoff::H10k => 2,
        LowpassCutoff::H20k => 3,
    }
}

fn cutoff_from(w: i64) -> (r: Option<LowpassCutoff>)
    ensures
        r == cutoff_of(w),
{
    if w == 0 {
        Some(LowpassCutoff::H500)
    } else if w == 1 {
        Some(LowpassCutoff::H1k)
    } else if w == 2 {
        Some(LowpassCutoff::H10k)
    } else if w == 3 {
        Some(LowpassCutoff::H20k)
    } else {
        None
    }
}

fn push_pr(words: &mut Vec<i64>, c: &CtrlCoeffsPR)
    ensures
        final(words)@ == old(words)@ + pr_words(*c),
{
    words.push(c.k_p_rate);
    words.push(c.k_i_rate);
    words.push(c.k_d_rate);
    words.push(c.k_p_attitude);
    words.push(c.k_i_attitude);
    words.push(c.k_d_attitude);
    words.push(c.k_p_velocity);
    words.push(c.k_i_velocity);
    words.push(cutoff_code(c.pid_deriv_lowpass_cutoff_rate));
    words.push(cutoff_code(c.pid_deriv_lowpass_cutoff_attitude));
    assert(words@ =~= old(words)@ + pr_words(*c));
}

fn push_yt(words: &mut Vec<i64>, c: &CtrlCoeffsYT)
    ensures
        final(words)@ == old(words)@ + yt_words(*c),
{
    words.push(c.k_p_rate);
    words.push(c.k_i_rate);
    words.push(c.k_d_rate);
    words.push(c.k_p_attitude);
    words.push(c.k_i_attitude);
    words.push(c.k_s_attitude);
    words.push(cutoff_code(c.pid_deriv_lowpass_cutoff));
    assert(words@ =~= old(words)@ + yt_words(*c));
}

fn read_pr(w: &Vec<i64>, at: usize) -> (r: Option<CtrlCoeffsPR>)
    requires
        at <= COEFFS_WORDS,
        at + 10 <= w@.len(),
    ensures
        r == pr_of(w@, at as int),
{
    let rate = cutoff_from(w[at + 8]);
    let attitude = cutoff_from(w[at + 9]);
    match (rate, attitude) {
        (Some(rate), Some(attitude)) => Some(
            CtrlCoeffsPR {
                k_p_rate: w[at],
                k_i_rate: w[at + 1],
                k_d_rate: w[at + 2],
                k_p_attitude: w[at + 3],
                k_i_attitude: w[at + 4],
                k_d_attitude: w[at + 5],
                k_p_velocity: w[at + 6],
                k_i_velocity: w[at + 7],
                pid_deriv_lowpass_cutoff_rate: rate,
                pid_deriv_lowpass_cutoff_attitude: attitude,
            },
        ),
        _ => None,
    }
}

fn read_yt(w: &Vec<i64>, at: usize) -> (r: Option<CtrlCoeffsYT>)
    requires
        at <= COEFFS_WORDS,
        at + 7 <= w@.len(),
    ensures
        r == yt_of(w@, at as int),
{
    match cutoff_from(w[at + 6]) {
        Some(cutoff) => Some(
            CtrlCoeffsYT {
                k_p_rate: w[at],
                k_i_rate: w[at + 1],
                k_d_rate: w[at + 2],
                k_p_attitude: w[at + 3],
                k_i_attitude: w[at + 4],
                k_s_attitude: w[at + 5],
                pid_deriv_lowpass_cutoff: cutoff,
            },
        ),
        None => None,
    }
}

fn coeffs_to_bytes(c: &CtrlCoeffGroup) -> (r: Vec<u8>)
    ensures
        r@ == words_to_bytes(coeffs_words(*c)),
        r@.len() == COEFFS_SIZE,
{
    let mut words: Vec<i64> = Vec::new();
    push_pr(&mut words, &c.pitch);
    push_pr(&mut words, &c.roll);
    push_yt(&mut words, &c.yaw);
    push_yt(&mut words, &c.thrust);
    assert(words@ =~= coeffs_words(*c));
    pack_words(&words)
}

fn coeffs_from_bytes(buf: &[u8]) -> (r: Option<CtrlCoeffGroup>)
    ensures
        buf@.len() >= COEFFS_SIZE ==> r == coeffs_of(bytes_to_words(buf@, COEFFS_WORDS as nat)),
        buf@.len() < COEFFS_SIZE ==> r.is_none(),
{
    if buf.len() < COEFFS_SIZE {
        return None;
    }
    let w = unpack_words(buf, COEFFS_WORDS);
    let pitch = read_pr(&w, 0);
    let roll = read_pr(&w, 10);
    let yaw = read_yt(&w, 20);
    let thrust = read_yt(&w, 27);
    match (pitch, roll, yaw, thrust) {
        (Some(pitch), Some(roll), Some(yaw), Some(thrust)) => Some(CtrlCoeffGroup { pitch, roll, yaw, thrust }),
        _ => None,
    }
}

/// Gains that were written as a block are read back as they were, also when
/// more bytes follow the block.
pub proof fn lemma_coeffs_round_trip(c: CtrlCoeffGroup, rest: Seq<u8>)
    ensures
        coeffs_of(bytes_to_words(words_to_bytes(coeffs_words(c)) + rest, COEFFS_WORDS as nat)) == Some(c),
{
    lemma_words_round_trip(coeffs_words(c), rest);
    let w = coeffs_words(c);
    assert(w.len() == 34);
    assert(pr_of(w, 0) == Some(c.pitch));
    assert(pr_of(w, 10) == Some(c.roll));
    assert(yt_of(w, 20) == Some(c.yaw));
    assert(yt_of(w, 27) == Some(c.thrust));
}

} // verus!
