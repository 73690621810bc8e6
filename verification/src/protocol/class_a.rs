use vstd::prelude::*;

use crate::domain::region::RegionId;
use crate::domain::session::{DeviceClass, LoRaWANVersion, SessionSnapshot};
use crate::protocol::capability::ProtocolDecision;

verus! {

/// Largest accepted distance between the session counter and a reconstructed
/// frame counter (LoRaWAN 1.0.x §4.3.1.5).
pub const MAX_FCNT_GAP: u32 = 16384;

/// Error returned by `extend_fcnt` when a frame must be rejected.
#[derive(Debug, Clone, Copy, PartialEq, Eq, Structural)]
pub enum FcntError {
    /// Wire FCnt falls within the gap window below the session counter: duplicate or replay.
    Duplicate,
    /// Distance between the reconstructed FCnt and the session counter exceeds `MAX_FCNT_GAP`.
    GapExceeded,
}

/// LoRaWAN 1.0.x Class A policy module (v1 baseline regions).
pub struct LoRaWAN10xClassA;

/// How far the wire counter lies ahead of the session counter, counted on 16 bits.
pub open spec fn fcnt_forward(wire: u16, session: u32) -> int {
    (wire as int - session as int) % 0x1_0000
}

/// How far the wire counter lies behind the session counter, counted on 16 bits.
pub open spec fn fcnt_backward(wire: u16, session: u32) -> int {
    (session as int - wire as int) % 0x1_0000
}

/// Distance from `from` forward to `to`, counted modulo 2^32.
pub open spec fn forward_distance(from: u32, to: int) -> int {
    (to - from as int) % 0x1_0000_0000
}

/// The reconstruction rule of LoRaWAN 1.0.x §4.3.1.5 as applied by this server: a wire
/// counter at most `MAX_FCNT_GAP` ahead of the session counter is accepted as the session
/// counter advanced by that distance (wrapping on 32 bits); one that names a counter at most
/// `MAX_FCNT_GAP` below the session counter (and not below zero) is a duplicate; anything
/// else is a gap.
pub open spec fn spec_extend_fcnt(wire: u16, session: u32) -> Result<u32, FcntError> {
    let fwd = fcnt_forward(wire, session);
    let back = fcnt_backward(wire, session);
    if 1 <= fwd <= MAX_FCNT_GAP {
        Ok(((session as int + fwd) % 0x1_0000_0000) as u32)
    } else if back <= MAX_FCNT_GAP && back <= session {
        Err(FcntError::Duplicate)
    } else {
        Err(FcntError::GapExceeded)
    }
}

/// The regions served by the Class A module.
pub open spec fn spec_region_supported(region: RegionId) -> bool {
    match region {
        RegionId::Eu868 | RegionId::Us915 | RegionId::Au915 | RegionId::As923 | RegionId::Eu433 => true,
    }
}

/// Uplink policy of the Class A module: region, session presence, class, region match,
/// then the frame counter.
pub open spec fn spec_validate_uplink(
    region: RegionId,
    f_cnt: u16,
    session: Option<SessionSnapshot>,
) -> ProtocolDecision {
    if !spec_region_supported(region) {
        ProtocolDecision::RejectRegionMismatch
    } else {
        match session {
            None => ProtocolDecision::RejectNoSession,
            Some(s) => if s.class != DeviceClass::ClassA {
                ProtocolDecision::RejectUnsupportedClass
            } else if s.region != region {
                ProtocolDecision::RejectRegionMismatch
            } else {
                match spec_extend_fcnt(f_cnt, s.uplink_frame_counter) {
                    Err(FcntError::Duplicate) => ProtocolDecision::RejectDuplicateFrameCounter,
                    Err(FcntError::GapExceeded) => ProtocolDecision::RejectFcntGapExceeded,
                    Ok(_) => ProtocolDecision::Accept,
                }
            },
        }
    }
}

impl LoRaWAN10xClassA {
    fn region_supported(region: RegionId) -> (b: bool)
        ensures
            b == spec_region_supported(region),
    {
        match region {
            RegionId::Eu868 | RegionId::Us915 | RegionId::Au915 | RegionId::As923
            | RegionId::Eu433 => true,
        }
    }

    pub fn id(&self) -> (s: &'static str)
        ensures
            s@ == "lorawan_1_0_x_class_a"@,
    {
        "lorawan_1_0_x_class_a"
    }

    /// LoRaWAN 1.0.x, Class A, in a supported region.
    pub fn supports(&self, version: LoRaWANVersion, class: DeviceClass, region: RegionId) -> (b: bool)
        ensures
            b == (version == LoRaWANVersion::V1_0_x && class == DeviceClass::ClassA
                && spec_region_supported(region)),
    {
        version == LoRaWANVersion::V1_0_x && class == DeviceClass::ClassA && Self::region_supported(
            region,
        )
    }

    /// Evaluates an uplink observed in `region` with wire counter `f_cnt` against the
    /// device session, if one is known.
    pub fn validate_uplink(
        &self,
        region: RegionId,
        f_cnt: u16,
        session: Option<&SessionSnapshot>,
    ) -> (d: ProtocolDecision)
        ensures
            d == spec_validate_uplink(
                region,
                f_cnt,
                match session {
                    Some(s) => Some(*s),
                    None => None,
                },
            ),
    {
        if !Self::region_supported(region) {
            return ProtocolDecision::RejectRegionMismatch;
        }
        let session = match session {
            Some(s) => s,
            None => {
                return ProtocolDecision::RejectNoSession;
            },
        };
        if session.class != DeviceClass::ClassA {
            return ProtocolDecision::RejectUnsupportedClass;
        }
        if session.region != region {
            return ProtocolDecision::RejectRegionMismatch;
        }
        match Self::extend_fcnt(f_cnt, session.uplink_frame_counter) {
            Err(FcntError::Duplicate) => ProtocolDecision::RejectDuplicateFrameCounter,
            Err(FcntError::GapExceeded) => ProtocolDecision::RejectFcntGapExceeded,
            Ok(_) => ProtocolDecision::Accept,
        }
    }

    /// LoRaWAN 1.0.x §4.3.1.5 — extend the 16-bit wire FCnt to the 32-bit server counter.
    ///
    /// Returns `Ok(reconstructed_fcnt)` if the frame should be processed,
    /// `Err(FcntError::Duplicate)` if the counter is within the replay window below the
    /// session counter (across a 64K boundary too), and `Err(FcntError::GapExceeded)` if the
    /// gap exceeds `MAX_FCNT_GAP` in both directions.
    pub fn extend_fcnt(wire_u16: u16, session_fcnt: u32) -> (result: Result<u32, FcntError>)
        ensures
            result == spec_extend_fcnt(wire_u16, session_fcnt),
    {
        let low: u32 = session_fcnt % 0x1_0000;
        let w: u32 = wire_u16 as u32;
        let fwd: u32 = if w >= low { w - low } else { w + 0x1_0000 - low };
        let back: u32 = if low >= w { low - w } else { low + 0x1_0000 - w };
        assert(fwd as int == fcnt_forward(wire_u16, session_fcnt)
            && back as int == fcnt_backward(wire_u16, session_fcnt)) by (nonlinear_arith)
            requires
                low as int == session_fcnt as int % 0x1_0000,
                w as int == wire_u16 as int,
                fwd as int == (if w >= low { w - low } else { w + 0x1_0000 - low }),
                back as int == (if low >= w { low - w } else { low + 0x1_0000 - w }),
                0 <= wire_u16 < 0x1_0000,
                0 <= session_fcnt,
        ;
        if 1 <= fwd && fwd <= MAX_FCNT_GAP {
            let r: u32 = ((session_fcnt as u64 + fwd as u64) % 0x1_0000_0000) as u32;
            Ok(r)
        } else if back <= MAX_FCNT_GAP && back <= session_fcnt {
            Err(FcntError::Duplicate)
        } else {
            Err(FcntError::GapExceeded)
        }
    }
}

/// The Class A module accepts only Class A sessions: an accepted uplink has a Class A
/// session in a supported region equal to the uplink's region, and a session of any other
/// class in a supported region is refused as an unsupported class.
pub proof fn lemma_validate_uplink_class_a_only(region: RegionId, f_cnt: u16, s: SessionSnapshot)
    ensures
        spec_validate_uplink(region, f_cnt, Some(s)) == ProtocolDecision::Accept ==> {
            &&& s.class == DeviceClass::ClassA
            &&& s.region == region
            &&& spec_region_supported(region)
        },
        spec_region_supported(region) && s.class != DeviceClass::ClassA ==> spec_validate_uplink(
            region,
            f_cnt,
            Some(s),
        ) == ProtocolDecision::RejectUnsupportedClass,
        spec_validate_uplink(region, f_cnt, None) != ProtocolDecision::Accept,
{
}

/// Every accepted frame counter carries the wire counter in its lower 16 bits and lies
/// strictly ahead of the session counter by at most `MAX_FCNT_GAP` (counted modulo 2^32).
pub proof fn lemma_extend_fcnt_sound(wire: u16, session: u32)
    ensures
        spec_extend_fcnt(wire, session) matches Ok(r) ==> {
            &&& r as int % 0x1_0000 == wire as int
            &&& 1 <= forward_distance(session, r as int) <= MAX_FCNT_GAP
        },
{
    let fwd = fcnt_forward(wire, session);
    if 1 <= fwd <= MAX_FCNT_GAP {
        let r = (session as int + fwd) % 0x1_0000_0000;
        assert(r % 0x1_0000 == wire as int && (r - session as int) % 0x1_0000_0000 == fwd)
            by (nonlinear_arith)
            requires
                fwd == (wire as int - session as int) % 0x1_0000,
                1 <= fwd <= 16384,
                r == (session as int + fwd) % 0x1_0000_0000,
                0 <= session < 0x1_0000_0000,
                0 <= wire < 0x1_0000,
        ;
    }
}

/// A frame counter that lies strictly ahead of the session counter within
/// `MAX_FCNT_GAP` (modulo 2^32) and carries the wire counter is always the one accepted.
pub proof fn lemma_extend_fcnt_complete(wire: u16, session: u32, r: u32)
    requires
        r as int % 0x1_0000 == wire as int,
        1 <= forward_distance(session, r as int) <= MAX_FCNT_GAP,
    ensures
        spec_extend_fcnt(wire, session) == Ok::<u32, FcntError>(r),
{
    let d = forward_distance(session, r as int);
    assert(fcnt_forward(wire, session) == d && (session as int + d) % 0x1_0000_0000 == r as int)
        by (nonlinear_arith)
        requires
            d == (r as int - session as int) % 0x1_0000_0000,
            1 <= d <= 16384,
            r as int % 0x1_0000 == wire as int,
            0 <= session < 0x1_0000_0000,
            0 <= r < 0x1_0000_0000,
            0 <= wire < 0x1_0000,
    ;
}

/// A wire counter naming a counter `c` that lies at most `MAX_FCNT_GAP` below (or at) the
/// session counter is rejected as a duplicate.
pub proof fn lemma_extend_fcnt_past_is_duplicate(wire: u16, session: u32, c: u32)
    requires
        c <= session,
        session - c <= MAX_FCNT_GAP,
        c as int % 0x1_0000 == wire as int,
    ensures
        spec_extend_fcnt(wire, session) == Err::<u32, FcntError>(FcntError::Duplicate),
{
    assert(fcnt_backward(wire, session) == session - c && (fcnt_forward(wire, session) == 0
        || fcnt_forward(wire, session) > 16384)) by (nonlinear_arith)
        requires
            c <= session,
            session - c <= 16384,
            c as int % 0x1_0000 == wire as int,
            0 <= c,
            0 <= wire < 0x1_0000,
    ;
}

/// A duplicate always names a counter at most `MAX_FCNT_GAP` below (or at) the session
/// counter that carries the wire counter in its lower 16 bits.
pub proof fn lemma_extend_fcnt_duplicate_names_past(wire: u16, session: u32)
    ensures
        spec_extend_fcnt(wire, session) == Err::<u32, FcntError>(FcntError::Duplicate) ==> {
            let c = session - fcnt_backward(wire, session);
            &&& 0 <= c <= session
            &&& session - c <= MAX_FCNT_GAP
            &&& c % 0x1_0000 == wire as int
        },
{
    let back = fcnt_backward(wire, session);
    assert((session as int - back) % 0x1_0000 == wire as int) by (nonlinear_arith)
        requires
            back == (session as int - wire as int) % 0x1_0000,
            0 <= wire < 0x1_0000,
    ;
}

/// Replaying the frame whose counter equals the session counter is rejected as a duplicate.
pub proof fn lemma_extend_fcnt_replay_is_duplicate(session: u32)
    ensures
        spec_extend_fcnt((session as int % 0x1_0000) as u16, session) == Err::<u32, FcntError>(
            FcntError::Duplicate,
        ),
{
    lemma_extend_fcnt_past_is_duplicate((session as int % 0x1_0000) as u16, session, session);
}

} // verus!
