//! The registers the x86-64 unwinder tracks: instruction pointer, stack
//! pointer and frame pointer. All other registers are outside the model.

use vstd::prelude::*;

verus! {

/// The register state of one x86-64 frame, as far as unwinding needs it.
#[derive(Clone, Copy, Debug, PartialEq, Eq, Structural)]
pub struct UnwindRegsX86_64 {
    ip: u64,
    sp: u64,
    bp: u64,
}

impl UnwindRegsX86_64 {
    pub closed spec fn spec_ip(&self) -> u64 {
        self.ip
    }

    pub closed spec fn spec_sp(&self) -> u64 {
        self.sp
    }

    pub closed spec fn spec_bp(&self) -> u64 {
        self.bp
    }

    pub fn new(ip: u64, sp: u64, bp: u64) -> (r: Self)
        ensures
            r.spec_ip() == ip,
            r.spec_sp() == sp,
            r.spec_bp() == bp,
    {
        Self { ip, sp, bp }
    }

    #[verifier::when_used_as_spec(spec_ip)]
    pub fn ip(&self) -> (r: u64)
        ensures
            r == self.spec_ip(),
    {
        self.ip
    }

    #[verifier::when_used_as_spec(spec_sp)]
    pub fn sp(&self) -> (r: u64)
        ensures
            r == self.spec_sp(),
    {
        self.sp
    }

    #[verifier::when_used_as_spec(spec_bp)]
    pub fn bp(&self) -> (r: u64)
        ensures
            r == self.spec_bp(),
    {
        self.bp
    }

    pub fn set_ip(&mut self, ip: u64)
        ensures
            final(self).spec_ip() == ip,
            final(self).spec_sp() == old(self).spec_sp(),
            final(self).spec_bp() == old(self).spec_bp(),
    {
        self.ip = ip;
    }

    pub fn set_sp(&mut self, sp: u64)
        ensures
            final(self).spec_ip() == old(self).spec_ip(),
            final(self).spec_sp() == sp,
            final(self).spec_bp() == old(self).spec_bp(),
    {
        self.sp = sp;
    }

    pub fn set_bp(&mut self, bp: u64)
        ensures
            final(self).spec_ip() == old(self).spec_ip(),
            final(self).spec_sp() == old(self).spec_sp(),
            final(self).spec_bp() == bp,
    {
        self.bp = bp;
    }
}

} // verus!
