//! Records: one timestamped, line-delimited unit of captured data, and its
//! byte encoding — timestamp prefix, raw payload, then a terminating line
//! feed — which is what one file append writes.

use vstd::prelude::*;

use crate::timestamp::Timestamp;

verus! {

/// The encoded form of one record: the formatted timestamp, the raw payload
/// with its framing bytes already stripped, and a terminating line feed.
pub open spec fn record_bytes(ts: Timestamp, payload: Seq<u8>) -> Seq<u8> {
    ts.spec_format() + payload + seq![10u8]
}

/// One timestamped captured line. Created once per completed line, consumed
/// by one file append and one forwarding to the output sink.
pub struct Record {
    pub timestamp: Timestamp,
    pub payload: Vec<u8>,
}

impl Record {
    /// The timestamp's fields lie in calendar range.
    pub open spec fn wf(self) -> bool {
        self.timestamp.wf()
    }

    /// The bytes this record contributes to the log file.
    pub open spec fn spec_bytes(self) -> Seq<u8> {
        record_bytes(self.timestamp, self.payload@)
    }

    /// Encodes the record for one file append: timestamp prefix, payload,
    /// line feed.
    pub fn encode(&self) -> (r: Vec<u8>)
        requires
            self.wf(),
        ensures
            r@ == self.spec_bytes(),
    {
        let mut out = self.timestamp.format();
        let mut i: usize = 0;
        proof {
            assert(self.payload@.subrange(0, 0) =~= Seq::<u8>::empty());
            assert(out@ + Seq::<u8>::empty() =~= out@);
        }
        while i < self.payload.len()
            invariant
                i <= self.payload.len(),
                out@ == self.timestamp.spec_format() + self.payload@.subrange(0, i as int),
            decreases self.payload.len() - i,
        {
            out.push(self.payload[i]);
            proof {
                assert(self.payload@.subrange(0, i + 1) =~= self.payload@.subrange(0, i as int).push(
                    self.payload@[i as int],
                ));
                assert(out@ =~= self.timestamp.spec_format() + self.payload@.subrange(0, i + 1));
            }
            i += 1;
        }
        out.push(10);
        proof {
            assert(self.payload@.subrange(0, self.payload@.len() as int) =~= self.payload@);
            assert(out@ =~= self.spec_bytes());
        }
        out
    }
}

} // verus!
