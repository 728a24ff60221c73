//! The firmware of one device: loading, release, and the program that the
//! engine replays.
//!
//! An `RtlFw` holds firmware bytes only after they have passed the container
//! check and the validation of every action, so the engine never meets a word
//! it cannot decode, nor a branch or skip that leaves the array. The version
//! string is that of the container that was parsed last, and outlives the
//! bytes.

use vstd::prelude::*;
use crate::action::{Action, spec_decode};
use crate::container::{
    FormatError,
    RtlFwPhyAction,
    rtl_fw_format_ok,
    spec_actions,
    spec_format_error,
    spec_format_ok,
    spec_version,
};
use crate::engine::{RtlFwAccess, RtlFwState, access, advance, spec_access, spec_advance};
use crate::validator::{ValidationError, rtl_fw_data_ok, spec_data_ok};

verus! {

/// The error number for firmware that is unusable.
pub const EINVAL: i32 = 22;

/// Why a load attempt left the device without firmware.
#[derive(Clone, Copy, Debug, PartialEq, Eq, Structural)]
pub enum RtlFwError {
    /// The bytes could not be had; the cause is the provider's error number.
    Request(i32),
    /// The bytes are no firmware container.
    Format(FormatError),
    /// The program holds an action that validation refuses.
    Action(ValidationError),
}

impl RtlFwError {
    /// The error number that the caller of a load sees: the provider's own
    /// for a failed request, and one and the same for unusable firmware.
    pub open spec fn spec_to_errno(self) -> i32 {
        match self {
            RtlFwError::Request(rc) => rc,
            _ => -22i32,
        }
    }

    /// The error number that the caller of a load sees.
    pub fn to_errno(&self) -> (rc: i32)
        ensures
            rc == self.spec_to_errno(),
    {
        match self {
            RtlFwError::Request(rc) => *rc,
            _ => -EINVAL,
        }
    }
}

/// Whether the bytes are firmware that may be loaded: a well-formed container
/// whose every action passes validation.
pub open spec fn spec_usable(bytes: Seq<u8>) -> bool {
    spec_format_ok(bytes) && spec_data_ok(spec_actions(bytes))
}

/// Whether `e` is the error that loading `fetched` ends with.
///
/// A failed request comes first, then the container check, then the first
/// action that validation refuses.
pub open spec fn spec_load_error(fetched: Result<Seq<u8>, i32>, e: RtlFwError) -> bool {
    match fetched {
        Err(rc) => e == RtlFwError::Request(rc),
        Ok(bytes) => match spec_format_error(bytes) {
            Some(fe) => e == RtlFwError::Format(fe),
            None => e matches RtlFwError::Action(ve) && ve.spec_first_in(spec_actions(bytes)),
        },
    }
}

/// The version string after bytes have been offered for loading: the version
/// found in them if they are a well-formed container, and `before` otherwise.
pub open spec fn spec_version_after(before: Seq<u8>, bytes: Seq<u8>, fw_name: Seq<u8>) -> Seq<u8> {
    if spec_format_ok(bytes) {
        spec_version(bytes, fw_name)
    } else {
        before
    }
}

/// The outcome of a provider's request, as seen by specifications.
pub open spec fn spec_fetched(fetched: Result<Vec<u8>, i32>) -> Result<Seq<u8>, i32> {
    match fetched {
        Ok(data) => Ok(data@),
        Err(rc) => Err(rc),
    }
}

/// Validated firmware bytes and the place of the action array in them.
struct RtlFwImage {
    data: Vec<u8>,
    phy_action: RtlFwPhyAction,
}

/// The firmware of one device.
pub struct RtlFw {
    fw_name: Vec<u8>,
    version: [u8; 32],
    fw: Option<RtlFwImage>,
}

impl RtlFw {
    #[verifier::type_invariant]
    spec fn inv(self) -> bool {
        match self.fw {
            Some(image) => {
                &&& spec_usable(image.data@)
                &&& self.version@ == spec_version(image.data@, self.fw_name@)
                &&& image.phy_action.spec_fits(image.data@.len())
                &&& image.phy_action.spec_words(image.data@) == spec_actions(image.data@)
            },
            None => true,
        }
    }

    /// The name under which the firmware is requested.
    pub closed spec fn spec_fw_name(&self) -> Seq<u8> {
        self.fw_name@
    }

    /// The firmware bytes that are held, if any.
    pub closed spec fn spec_fw(&self) -> Option<Seq<u8>> {
        match self.fw {
            Some(image) => Some(image.data@),
            None => None,
        }
    }

    /// Where the action array lies in the held bytes; empty without firmware.
    pub closed spec fn spec_phy_action(&self) -> RtlFwPhyAction {
        match self.fw {
            Some(image) => image.phy_action,
            None => RtlFwPhyAction { start: 0, size: 0 },
        }
    }

    /// The version string: that of the container that was parsed last, all
    /// zero before the first.
    pub closed spec fn spec_version(&self) -> Seq<u8> {
        self.version@
    }

    /// The program that the engine replays: the action words of the held
    /// firmware, and no word without firmware.
    pub open spec fn spec_program(&self) -> Seq<u32> {
        match self.spec_fw() {
            Some(bytes) => spec_actions(bytes),
            None => Seq::empty(),
        }
    }

    /// Whether no firmware is held, and the version string is `version`: no
    /// bytes and no action.
    pub open spec fn spec_without_firmware(&self, version: Seq<u8>) -> bool {
        &&& self.spec_fw() is None
        &&& self.spec_phy_action() == (RtlFwPhyAction { start: 0, size: 0 })
        &&& self.spec_version() == version
    }

    /// Whether this is the state that loading `bytes` leaves behind: the
    /// bytes are held, with the action array and the version that the
    /// container check finds in them.
    pub open spec fn spec_holds(&self, bytes: Seq<u8>) -> bool {
        &&& self.spec_fw() == Some(bytes)
        &&& self.spec_phy_action().spec_fits(bytes.len())
        &&& self.spec_phy_action().spec_words(bytes) == spec_actions(bytes)
        &&& self.spec_version() == spec_version(bytes, self.spec_fw_name())
    }

    /// What the action at the program counter asks of the device; `None`
    /// where the program counter has left the program.
    pub open spec fn spec_next_access(&self, st: RtlFwState) -> Option<RtlFwAccess> {
        if st.index < self.spec_program().len() {
            match spec_decode(self.spec_program()[st.index as int]) {
                Some(a) => Some(spec_access(a, st)),
                None => None,
            }
        } else {
            None
        }
    }

    /// The state after the action at the program counter has run and the
    /// device has returned `read`; the state itself where the program
    /// counter has left the program.
    pub open spec fn spec_step(&self, st: RtlFwState, read: i32) -> RtlFwState {
        if st.index < self.spec_program().len() {
            match spec_decode(self.spec_program()[st.index as int]) {
                Some(a) => spec_advance(a, st, read),
                None => st,
            }
        } else {
            st
        }
    }

    /// A device's firmware before anything is loaded: no bytes, no action,
    /// and a version string of zero bytes.
    pub fn new(fw_name: Vec<u8>) -> (fw: RtlFw)
        ensures
            fw.spec_fw_name() == fw_name@,
            fw.spec_without_firmware(Seq::new(32, |i: int| 0u8)),
    {
        let version: [u8; 32] = [0u8;32];
        assert(version@ =~= Seq::new(32, |i: int| 0u8));
        RtlFw { fw_name: fw_name, version: version, fw: None }
    }

    /// The name under which the firmware is requested.
    pub fn fw_name(&self) -> (name: &[u8])
        ensures
            name@ == self.spec_fw_name(),
    {
        self.fw_name.as_slice()
    }

    /// Whether firmware is held.
    pub fn is_loaded(&self) -> (b: bool)
        ensures
            b == (self.spec_fw() is Some),
    {
        self.fw.is_some()
    }

    /// The held firmware bytes.
    pub fn fw(&self) -> (data: Option<&[u8]>)
        ensures
            match data {
                Some(bytes) => self.spec_fw() == Some(bytes@) && spec_usable(bytes@),
                None => self.spec_fw() is None,
            },
    {
        proof {
            use_type_invariant(self);
        }
        match &self.fw {
            Some(image) => Some(image.data.as_slice()),
            None => None,
        }
    }

    /// The version string of the container that was parsed last: the header's
    /// field for a legacy container, the firmware name for a modern one. It
    /// stays when the bytes are released, and is zero bytes before the first
    /// container. While firmware is held, it is the version of that firmware.
    pub fn version(&self) -> (v: [u8; 32])
        ensures
            v@ == self.spec_version(),
            match self.spec_fw() {
                Some(bytes) => v@ == spec_version(bytes, self.spec_fw_name()),
                None => true,
            },
    {
        proof {
            use_type_invariant(self);
        }
        self.version
    }

    /// Where the action array lies in the held bytes.
    pub fn phy_action(&self) -> (pa: RtlFwPhyAction)
        ensures
            pa == self.spec_phy_action(),
            pa.size == self.spec_program().len(),
            match self.spec_fw() {
                Some(bytes) => pa.spec_fits(bytes.len()) && pa.spec_words(bytes)
                    == self.spec_program(),
                None => pa == (RtlFwPhyAction { start: 0, size: 0 }),
            },
    {
        proof {
            use_type_invariant(self);
        }
        match &self.fw {
            Some(image) => image.phy_action,
            None => RtlFwPhyAction { start: 0, size: 0 },
        }
    }

    /// Number of actions of the program. Every one of them has passed
    /// validation.
    pub fn size(&self) -> (n: usize)
        ensures
            n == self.spec_program().len(),
            spec_data_ok(self.spec_program()),
    {
        proof {
            use_type_invariant(self);
        }
        match &self.fw {
            Some(image) => image.phy_action.size,
            None => 0,
        }
    }

    /// Takes the outcome of the provider's request and keeps the bytes if
    /// they are usable firmware.
    ///
    /// A failed request changes nothing and is handed on. Bytes that fail the
    /// container check or the validation are dropped, together with firmware
    /// held before, and the error says why. Usable bytes replace what was
    /// held. The version string changes exactly when the bytes pass the
    /// container check: to the version found in them.
    pub fn load(&mut self, fetched: Result<Vec<u8>, i32>) -> (r: Result<(), RtlFwError>)
        ensures
            final(self).spec_fw_name() == old(self).spec_fw_name(),
            r is Ok <==> fetched is Ok && spec_usable(fetched.unwrap()@),
            r is Ok ==> final(self).spec_holds(fetched.unwrap()@),
            r is Err ==> spec_load_error(spec_fetched(fetched), r.unwrap_err()),
            r is Err && fetched is Ok ==> final(self).spec_without_firmware(
                spec_version_after(
                    old(self).spec_version(),
                    fetched.unwrap()@,
                    old(self).spec_fw_name(),
                ),
            ),
            fetched is Err ==> *final(self) == *old(self),
    {
        let data = match fetched {
            Ok(data) => data,
            Err(rc) => {
                return Err(RtlFwError::Request(rc));
            },
        };
        let layout = match rtl_fw_format_ok(data.as_slice(), self.fw_name.as_slice()) {
            Ok(layout) => layout,
            Err(e) => {
                self.fw = None;
                return Err(RtlFwError::Format(e));
            },
        };
        match rtl_fw_data_ok(data.as_slice(), &layout.phy_action) {
            Ok(()) => {},
            Err(e) => {
                self.fw = None;
                self.version = layout.version;
                return Err(RtlFwError::Action(e));
            },
        }
        self.fw = None;
        self.version = layout.version;
        self.fw = Some(RtlFwImage { data: data, phy_action: layout.phy_action });
        Ok(())
    }

    /// Takes the outcome of the provider's request, keeps the bytes if they
    /// are usable firmware, and answers with an error number: zero for
    /// firmware that is now held, the provider's own for a failed request,
    /// and `-EINVAL` for bytes that are no usable firmware. The state is left
    /// as [`RtlFw::load`] leaves it.
    pub fn rtl_fw_request_firmware(&mut self, fetched: Result<Vec<u8>, i32>) -> (rc: i32)
        ensures
            final(self).spec_fw_name() == old(self).spec_fw_name(),
            match fetched {
                Err(e) => rc == e && *final(self) == *old(self),
                Ok(data) => if spec_usable(data@) {
                    rc == 0 && final(self).spec_holds(data@)
                } else {
                    rc == -22 && final(self).spec_without_firmware(
                        spec_version_after(
                            old(self).spec_version(),
                            data@,
                            old(self).spec_fw_name(),
                        ),
                    )
                },
            },
    {
        match self.load(fetched) {
            Ok(()) => 0,
            Err(e) => e.to_errno(),
        }
    }

    /// Drops the held firmware bytes, if there are any. The version string
    /// and the name stay; without firmware nothing changes.
    pub fn rtl_fw_release_firmware(&mut self)
        ensures
            final(self).spec_fw() is None,
            final(self).spec_phy_action() == (RtlFwPhyAction { start: 0, size: 0 }),
            final(self).spec_version() == old(self).spec_version(),
            final(self).spec_fw_name() == old(self).spec_fw_name(),
            old(self).spec_fw() is None ==> *final(self) == *old(self),
    {
        self.fw = None;
    }

    /// What the action at the program counter asks of the device.
    ///
    /// `None` ends the run: the program counter has left the program. Every
    /// action inside the program decodes, so there is no other end.
    pub fn rtl_fw_next_access(&self, st: &RtlFwState) -> (acc: Option<RtlFwAccess>)
        ensures
            acc == self.spec_next_access(*st),
            acc is Some <==> st.index < self.spec_program().len(),
    {
        proof {
            use_type_invariant(self);
        }
        match &self.fw {
            Some(image) => {
                if st.index < image.phy_action.size {
                    let word: u32 = image.phy_action.action_at(image.data.as_slice(), st.index);
                    match Action::decode(word) {
                        Some(a) => Some(access(a, st)),
                        None => None,
                    }
                } else {
                    None
                }
            },
            None => None,
        }
    }

    /// Runs the action at the program counter on the machine's state.
    ///
    /// `read` is what the device returned for the access of that action,
    /// where it was a register read; other actions ignore it. The new program
    /// counter lies inside the program or directly behind it. A state whose
    /// program counter has left the program stays as it is.
    pub fn rtl_fw_advance(&self, st: &mut RtlFwState, read: i32)
        ensures
            *final(st) == self.spec_step(*old(st), read),
            old(st).index < self.spec_program().len() ==> final(st).index
                <= self.spec_program().len(),
    {
        proof {
            use_type_invariant(self);
        }
        match &self.fw {
            Some(image) => {
                if st.index < image.phy_action.size {
                    let word: u32 = image.phy_action.action_at(image.data.as_slice(), st.index);
                    match Action::decode(word) {
                        Some(a) => {
                            advance(a, st, image.phy_action.size, read);
                        },
                        None => {},
                    }
                }
            },
            None => {},
        }
    }
}

} // verus!
