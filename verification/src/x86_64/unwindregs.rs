use vstd::prelude::*;

verus! {

/// The registers that unwinding on x86_64 reads and writes.
#[derive(Clone, Copy, Debug, PartialEq, Eq)]
pub struct UnwindRegsX86_64 {
    pub ip: u64,
    pub sp: u64,
    pub bp: u64,
}

impl UnwindRegsX86_64 {
    /// The registers with the code address `ip`, the stack pointer `sp`
    /// and the frame pointer `bp`.
    pub fn new(ip: u64, sp: u64, bp: u64) -> (regs: Self)
        ensures
            regs == (UnwindRegsX86_64 { ip, sp, bp }),
    {
        UnwindRegsX86_64 { ip, sp, bp }
    }

    #[inline(always)]
    pub fn ip(&self) -> (ip: u64)
        ensures
            ip == self.ip,
    {
        self.ip
    }

    #[inline(always)]
    pub fn set_ip(&mut self, ip: u64)
        ensures
            *final(self) == (UnwindRegsX86_64 { ip, ..*old(self) }),
    {
        self.ip = ip
    }

    #[inline(always)]
    pub fn sp(&self) -> (sp: u64)
        ensures
            sp == self.sp,
    {
        self.sp
    }

    #[inline(always)]
    pub fn set_sp(&mut self, sp: u64)
        ensures
            *final(self) == (UnwindRegsX86_64 { sp, ..*old(self) }),
    {
        self.sp = sp
    }

    #[inline(always)]
    pub fn bp(&self) -> (bp: u64)
        ensures
            bp == self.bp,
    {
        self.bp
    }

    #[inline(always)]
    pub fn set_bp(&mut self, bp: u64)
        ensures
            *final(self) == (UnwindRegsX86_64 { bp, ..*old(self) }),
    {
        self.bp = bp
    }
}

} // verus!
