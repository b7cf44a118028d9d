use vstd::prelude::*;

use crate::encoding::TraceConfig;

verus! {

/// A completed capture: the raw trace bytes and the settings they were taken with.
pub struct TraceDump {
    pub data: Vec<u8>,
    settings: TraceConfig,
}

impl TraceDump {
    pub closed spec fn bytes(&self) -> Seq<u8> {
        self.data@
    }

    pub closed spec fn settings_spec(&self) -> TraceConfig {
        self.settings
    }

    /// A capture holding a copy of `raw_data`, taken with `settings`.
    pub fn new(raw_data: &[u8], settings: TraceConfig) -> (r: TraceDump)
        ensures
            r.bytes() == raw_data@,
            r.settings_spec() == settings,
    {
        let mut data: Vec<u8> = Vec::with_capacity(raw_data.len());
        let mut i: usize = 0;
        while i < raw_data.len()
            invariant
                i <= raw_data@.len(),
                data@ == raw_data@.subrange(0, i as int),
            decreases raw_data@.len() - i,
        {
            data.push(raw_data[i]);
            i = i + 1;
            assert(data@ =~= raw_data@.subrange(0, i as int));
        }
        assert(data@ =~= raw_data@);
        TraceDump { data, settings }
    }

    /// The settings the capture was taken with.
    pub fn settings(&self) -> (r: TraceConfig)
        ensures
            r == self.settings_spec(),
    {
        self.settings
    }
}

} // verus!
