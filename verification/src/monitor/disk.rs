//! Disk totals, and the filter that keeps only significant disks.

use vstd::prelude::*;
use crate::monitor::network::GIB;
use crate::monitor::percent_spec;
use crate::monitor::percent_of;

verus! {

/// One mounted disk: its name and mount point, and its space totals in
/// bytes.
#[derive(Debug)]
pub struct DiskInfo {
    pub name: String,
    pub mount_point: String,
    pub total_bytes: u64,
    pub available_bytes: u64,
}

/// The mathematical value of a disk record: its strings as character
/// sequences, its totals as they are.
#[verifier::ext_equal]
pub struct DiskInfoV {
    pub name: Seq<char>,
    pub mount_point: Seq<char>,
    pub total_bytes: u64,
    pub available_bytes: u64,
}

impl View for DiskInfo {
    type V = DiskInfoV;

    open spec fn view(&self) -> DiskInfoV {
        DiskInfoV {
            name: self.name@,
            mount_point: self.mount_point@,
            total_bytes: self.total_bytes,
            available_bytes: self.available_bytes,
        }
    }
}

impl Clone for DiskInfo {
    /// An equal record: same strings, same totals.
    fn clone(&self) -> (r: Self)
        ensures
            r@ == self@,
    {
        DiskInfo {
            name: self.name.clone(),
            mount_point: self.mount_point.clone(),
            total_bytes: self.total_bytes,
            available_bytes: self.available_bytes,
        }
    }
}

/// The bytes in use on a disk: total minus available, floored at zero
/// should the platform report more available than total.
pub open spec fn used_bytes_spec(total_bytes: u64, available_bytes: u64) -> u64 {
    if available_bytes <= total_bytes {
        (total_bytes - available_bytes) as u64
    } else {
        0
    }
}

impl DiskInfo {
    /// The bytes in use: total minus available, floored at zero.
    pub fn used_bytes(&self) -> (r: u64)
        ensures
            r == used_bytes_spec(self.total_bytes, self.available_bytes),
    {
        if self.available_bytes <= self.total_bytes {
            self.total_bytes - self.available_bytes
        } else {
            0
        }
    }

    /// The used share of the disk in whole percent, rounded down; zero for
    /// a disk that reports no space at all.
    pub fn percentage(&self) -> (r: u64)
        ensures
            r == percent_spec(used_bytes_spec(self.total_bytes, self.available_bytes), self.total_bytes),
            r <= 100,
    {
        let used = self.used_bytes();
        percent_of(used, self.total_bytes)
    }
}

/// The views of a sequence of disk records.
pub open spec fn disk_views(s: Seq<DiskInfo>) -> Seq<DiskInfoV> {
    s.map_values(|d: DiskInfo| d@)
}

/// Keep the disks above one binary gigabyte of total space, in order;
/// smaller ones are likely virtual or system drives and are not reported.
/// The caller's vector is read, never changed.
pub fn significant_disks(all: &Vec<DiskInfo>) -> (r: Vec<DiskInfo>)
    ensures
        disk_views(r@) == disk_views(all@).filter(|d: DiskInfoV| d.total_bytes > GIB),
{
    let ghost pred = |d: DiskInfoV| d.total_bytes > GIB;
    let mut r: Vec<DiskInfo> = Vec::new();
    let mut i: usize = 0;
    proof {
        reveal(Seq::filter);
        assert(disk_views(all@.take(0)) =~= Seq::<DiskInfoV>::empty());
        assert(disk_views(all@.take(0)).filter(pred) =~= disk_views(r@));
    }
    #[verifier::loop_isolation(false)]
    while i < all.len()
        invariant
            i <= all@.len(),
            disk_views(r@) == disk_views(all@.take(i as int)).filter(pred),
        decreases all@.len() - i,
    {
        let ghost r_old = r@;
        if all[i].total_bytes > GIB {
            r.push(all[i].clone());
        }
        i = i + 1;
        proof {
            let ghost x = all@[i as int - 1]@;
            let ghost base = disk_views(all@.take(i as int - 1));
            assert(all@.take(i as int) =~= all@.take(i as int - 1).push(all@[i as int - 1]));
            assert(disk_views(all@.take(i as int)) =~= base.push(x));
            base.lemma_filter_push(x, pred);
            if x.total_bytes > GIB {
                assert(pred(x));
                assert(disk_views(r@) =~= disk_views(r_old).push(x));
                assert(disk_views(all@.take(i as int)).filter(pred) == base.filter(pred).push(x));
            } else {
                assert(!pred(x));
                assert(disk_views(r@) == disk_views(r_old));
                assert(disk_views(all@.take(i as int)).filter(pred) == base.filter(pred));
            }
        }
    }
    proof {
        assert(all@.take(all@.len() as int) =~= all@);
    }
    r
}

} // verus!
