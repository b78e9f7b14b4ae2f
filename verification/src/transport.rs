use vstd::prelude::*;

use vstd::slice::slice_to_vec;

use crate::error::Error;

verus! {

/// The blocking HID transport the driver talks through: one call sends or
/// receives one message. The physical device is an external collaborator, so
/// nothing is promised of outcomes beyond basic shape — a failed call
/// surfaces as `Error::Transport`, and a read never grows or shrinks the
/// caller's buffer.
pub trait HidTransport {
    /// Send one outbound message; on success the result is the number of
    /// bytes the transport accepted.
    fn write(&mut self, data: &[u8]) -> (r: Result<usize, Error>)
        ensures
            r matches Err(e) ==> e == Error::Transport,
    ;

    /// Read one inbound report into the front of `buffer`; on success the
    /// result is the number of bytes read, 0 when nothing was pending.
    fn read(&mut self, buffer: &mut Vec<u8>) -> (r: Result<usize, Error>)
        ensures
            final(buffer)@.len() == old(buffer)@.len(),
            r matches Ok(n) ==> n <= old(buffer)@.len(),
            r matches Err(e) ==> e == Error::Transport,
    ;
}

/// An in-memory transport for exercising the driver without hardware: it
/// replays a scripted queue of inbound reports and records every outbound
/// message, and can be told to fail, as a cable pull would.
pub struct ScriptedTransport {
    /// Inbound reports still to be handed out, front first.
    pub incoming: Vec<Vec<u8>>,
    /// Every outbound message, in the order it was written.
    pub written: Vec<Vec<u8>>,
    /// When set, every call fails with `Error::Transport`.
    pub failing: bool,
}

impl ScriptedTransport {
    /// A transport with nothing pending and nothing written.
    pub fn new() -> (t: ScriptedTransport)
        ensures
            t.incoming@.len() == 0,
            t.written@.len() == 0,
            !t.failing,
    {
        ScriptedTransport { incoming: Vec::new(), written: Vec::new(), failing: false }
    }

    /// Queue one inbound report at the back of the script.
    pub fn push_report(&mut self, report: Vec<u8>)
        ensures
            final(self).incoming@ == old(self).incoming@.push(report),
            final(self).written == old(self).written,
            final(self).failing == old(self).failing,
    {
        self.incoming.push(report);
    }
}

impl HidTransport for ScriptedTransport {
    fn write(&mut self, data: &[u8]) -> (r: Result<usize, Error>)
        ensures
            old(self).failing ==> r == Err::<usize, Error>(Error::Transport) && *final(self) == *old(self),
            !old(self).failing ==> {
                &&& r == Ok::<usize, Error>(data@.len() as usize)
                &&& final(self).written.deep_view() == old(self).written.deep_view().push(data@)
                &&& final(self).incoming == old(self).incoming
                &&& final(self).failing == old(self).failing
            },
    {
        if self.failing {
            return Err(Error::Transport);
        }
        let copy: Vec<u8> = slice_to_vec(data);
        let n: usize = copy.len();
        self.written.push(copy);
        proof {
            assert(self.written.deep_view() =~~= old(self).written.deep_view().push(data@));
        }
        Ok(n)
    }

    fn read(&mut self, buffer: &mut Vec<u8>) -> (r: Result<usize, Error>)
        ensures
            old(self).failing ==> r == Err::<usize, Error>(Error::Transport) && *final(self) == *old(self) && *final(buffer) == *old(buffer),
            !old(self).failing && old(self).incoming@.len() == 0 ==> r == Ok::<usize, Error>(0)
                && *final(self) == *old(self) && *final(buffer) == *old(buffer),
            !old(self).failing && old(self).incoming@.len() > 0 ==> {
                &&& final(self).incoming@ == old(self).incoming@.skip(1)
                &&& final(self).written == old(self).written
                &&& final(self).failing == old(self).failing
                &&& r matches Ok(n) && n == if old(self).incoming@[0]@.len() <= old(buffer)@.len() {
                    old(self).incoming@[0]@.len() as int
                } else {
                    old(buffer)@.len() as int
                }
                &&& final(buffer)@ == old(self).incoming@[0]@.take(
                    r->Ok_0 as int,
                ) + old(buffer)@.skip(r->Ok_0 as int)
            },
    {
        if self.failing {
            return Err(Error::Transport);
        }
        if self.incoming.len() == 0 {
            return Ok(0);
        }
        let report: Vec<u8> = self.incoming.remove(0);
        proof {
            assert(self.incoming@ =~= old(self).incoming@.skip(1));
        }
        let n: usize = if report.len() <= buffer.len() {
            report.len()
        } else {
            buffer.len()
        };
        let mut i: usize = 0;
        while i < n
            invariant
                i <= n,
                n <= buffer@.len(),
                n <= report@.len(),
                buffer@.len() == old(buffer)@.len(),
                report@ == old(self).incoming@[0]@,
                forall|j: int| 0 <= j < i ==> buffer@[j] == report@[j],
                forall|j: int| i <= j < buffer@.len() ==> buffer@[j] == old(buffer)@[j],
            decreases n - i,
        {
            let b: u8 = report[i];
            buffer.set(i, b);
            i = i + 1;
        }
        proof {
            assert(buffer@ =~= old(self).incoming@[0]@.take(n as int) + old(buffer)@.skip(
                n as int,
            ));
        }
        Ok(n)
    }
}

} // verus!
