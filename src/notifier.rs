use vstd::prelude::*;
use crate::enums::UtcSource;

verus! {

/// Holds the provenance of the exposed clock's UTC and answers watchers. A watch resolves
/// with the current provenance as soon as it differs from what the watcher last saw; the
/// first watch of a watcher resolves at once.
pub struct Notifier {
    source: UtcSource,
}

impl Notifier {
    /// The current provenance.
    pub closed spec fn spec_source(&self) -> UtcSource {
        self.source
    }

    /// Creates a notifier that announces `source`.
    pub fn new(source: UtcSource) -> (r: Notifier)
        ensures
            r.spec_source() == source,
    {
        Notifier { source }
    }

    /// The current provenance.
    pub fn source(&self) -> (r: UtcSource)
        ensures
            r == self.spec_source(),
    {
        self.source
    }

    /// Announces a new provenance. Announcing the current one again changes nothing.
    pub fn set_source(&mut self, source: UtcSource)
        ensures
            final(self).spec_source() == source,
    {
        self.source = source;
    }

    /// Answers a watcher that last saw `last_seen` (nothing, for its first watch): the current
    /// provenance if it differs, else nothing yet.
    pub fn watch(&self, last_seen: Option<UtcSource>) -> (r: Option<UtcSource>)
        ensures
            r == (if last_seen == Some(self.spec_source()) { None } else { Some(self.spec_source()) }),
    {
        match last_seen {
            Some(seen) => if seen == self.source {
                None
            } else {
                Some(self.source)
            },
            None => Some(self.source),
        }
    }
}

} // verus!
