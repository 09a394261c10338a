use vstd::prelude::*;
use crate::cartridge::mbc::RAM_BANK_SIZE;
use crate::cartridge::rtc::{Rtc, RTC_SAVE_SIZE, restored_at};

verus! {

/// The first `n * RAM_BANK_SIZE` bytes of `data`, where `n` is the number of
/// whole 8 KiB banks in it.
pub open spec fn whole_banks(data: Seq<u8>) -> Seq<u8> {
    data.subrange(0, (data.len() / (RAM_BANK_SIZE as nat)) * RAM_BANK_SIZE as int)
}

/// Cuts saved RAM into whole 8 KiB banks, dropping a trailing partial bank.
pub fn parse_ram(data: &[u8]) -> (r: Vec<u8>)
    ensures
        r@ == whole_banks(data@),
        r@.len() % (RAM_BANK_SIZE as nat) == 0,
{
    let n = (data.len() / RAM_BANK_SIZE) * RAM_BANK_SIZE;
    proof {
        vstd::arithmetic::div_mod::lemma_fundamental_div_mod(data@.len() as int, RAM_BANK_SIZE as int);
        vstd::arithmetic::div_mod::lemma_mod_multiples_basic((data@.len() / (RAM_BANK_SIZE as nat)) as int, RAM_BANK_SIZE as int);
    }
    let mut out: Vec<u8> = Vec::new();
    let mut i: usize = 0;
    while i < n
        invariant
            i <= n <= data@.len(),
            out@ == data@.subrange(0, i as int),
        decreases n - i,
    {
        out.push(data[i]);
        i = i + 1;
        assert(out@ =~= data@.subrange(0, i as int));
    }
    out
}

/// Saves and loads RAM and/or RTC state, identified by the cartridge title;
/// the files themselves are read and written by the caller.
pub struct Battery {
    pub id_name: Vec<u8>,
}

impl Battery {
    /// A battery identified by `id_name`.
    pub fn new(id_name: Vec<u8>) -> (r: Self)
        ensures
            r.id_name@ == id_name@,
    {
        Battery { id_name }
    }

    /// The bytes to write for a RAM save: the RAM banks one after another.
    pub fn save_ram(&self, ram: &Vec<u8>) -> (r: Vec<u8>)
        ensures
            r@ == ram@,
    {
        ram.clone()
    }

    /// The RAM restored from the bytes of the last save (if any was found).
    pub fn load_ram(&self, data: Option<Vec<u8>>) -> (r: Option<Vec<u8>>)
        ensures
            data is None ==> r is None,
            data matches Some(d) ==> r matches Some(v) && v@ == whole_banks(d@),
    {
        match data {
            Some(d) => Some(parse_ram(d.as_slice())),
            None => None,
        }
    }

    /// The bytes to write for an RTC save: the clock advanced to `now`
    /// (seconds since the UNIX epoch, read by the caller).
    pub fn save_rtc(&self, rtc: &Rtc, now: u64) -> (r: [u8; RTC_SAVE_SIZE])
        requires
            rtc.wf(),
        ensures
            r@ == rtc.save_bytes(now),
    {
        rtc.to_save(now)
    }

    /// The RTC restored from the first 13 bytes of the last save (if any was
    /// found), advanced to `now`.
    pub fn load_rtc(&self, data: Option<Vec<u8>>, now: u64) -> (r: Option<Rtc>)
        requires
            data matches Some(d) ==> d@.len() >= RTC_SAVE_SIZE,
        ensures
            data is None <==> r is None,
            r matches Some(c) ==> c.wf(),
            data matches Some(d) ==> r == Some(restored_at(d@.subrange(0, RTC_SAVE_SIZE as int), now)),
    {
        match data {
            Some(d) => {
                let mut registers = [0u8; RTC_SAVE_SIZE];
                let mut i: usize = 0;
                while i < RTC_SAVE_SIZE
                    invariant
                        i <= RTC_SAVE_SIZE <= d@.len(),
                        forall|j: int| 0 <= j < i ==> registers@[j] == d@[j],
                    decreases RTC_SAVE_SIZE - i,
                {
                    registers[i] = d[i];
                    i = i + 1;
                }
                assert(registers@ =~= d@.subrange(0, RTC_SAVE_SIZE as int));
                Some(Rtc::from_save(registers, now))
            },
            None => None,
        }
    }
}

} // verus!
