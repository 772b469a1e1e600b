//! The metrics manager: sled identity, the producer registry, and the links
//! whose kernel statistics are sampled.
//!
//! Waiting on the sampler is left to the caller: a tracking operation is a
//! request step, which yields what to hand the sampler, and, where the map of
//! links changes on the sampler's answer, a step that records that answer.
use crate::error::{is_unsupported, unsupported, Error};
use crate::identity::{serial_of, Baseboard, SledIdentifiers};
use crate::tracker::{LinkTracker, TargetId};
use vstd::prelude::*;

verus! {

/// The directory of metric producers that the collector polls, keyed by the
/// sled's identifier.
#[derive(Debug)]
pub struct ProducerRegistry {
    /// The identifier under which the producers are known.
    pub producer_id: uuid::Uuid,
    /// Whether the kernel-statistics sampler is registered as a producer.
    pub kstat_registered: bool,
}

/// How starting the kernel-statistics sampler went.
#[derive(Clone, Debug, PartialEq, Eq)]
pub enum SamplerStart {
    /// This platform has no kernel statistics: no sampler exists.
    Unsupported,
    /// The sampler started and was registered as a producer.
    Registered,
    /// The sampler could not be created.
    Failed(String),
    /// The registry refused the sampler as a producer.
    Rejected(String),
}

/// A physical datalink, as the sampler is asked to track it.
#[derive(Debug)]
pub struct PhysicalDataLink {
    pub rack_id: uuid::Uuid,
    pub sled_id: uuid::Uuid,
    pub serial: String,
    pub hostname: String,
    pub link_name: String,
}

/// A virtual datalink, as the sampler is asked to track it.
#[derive(Debug)]
pub struct VirtualDataLink {
    pub rack_id: uuid::Uuid,
    pub sled_id: uuid::Uuid,
    pub serial: String,
    pub hostname: String,
    pub link_name: String,
}

/// Manages the metrics that a sled produces.
pub struct MetricsManager {
    metadata: SledIdentifiers,
    kstat_supported: bool,
    tracked_links: LinkTracker,
    registry: ProducerRegistry,
}

impl MetricsManager {
    /// The sled's identifier.
    pub closed spec fn sled_id(&self) -> uuid::Uuid {
        self.metadata.sled_id
    }

    /// The rack's identifier.
    pub closed spec fn rack_id(&self) -> uuid::Uuid {
        self.metadata.rack_id
    }

    /// The sled's baseboard.
    pub closed spec fn baseboard(&self) -> Baseboard {
        self.metadata.baseboard
    }

    /// Whether kernel statistics can be sampled here.
    pub closed spec fn supported(&self) -> bool {
        self.kstat_supported
    }

    /// The sampler handle of each tracked link, by name.
    pub closed spec fn links(&self) -> Map<Seq<char>, TargetId> {
        self.tracked_links@
    }

    /// The registry is keyed by the sled, holds the sampler exactly where one
    /// exists, and no link is tracked without one.
    pub closed spec fn wf(&self) -> bool {
        &&& self.tracked_links.wf()
        &&& self.registry.producer_id == self.metadata.sled_id
        &&& self.registry.kstat_registered == self.kstat_supported
        &&& !self.kstat_supported ==> self.tracked_links@ == Map::<Seq<char>, TargetId>::empty()
    }

    /// Whether `a` and `b` describe the same sled with the same capability.
    pub open spec fn same_sled(a: &Self, b: &Self) -> bool {
        &&& a.sled_id() == b.sled_id()
        &&& a.rack_id() == b.rack_id()
        &&& a.baseboard() == b.baseboard()
        &&& a.supported() == b.supported()
    }

    /// Builds the manager of a sled once its sampler has been started (or
    /// found unsupported), with no link tracked.
    pub fn new(sled_id: uuid::Uuid, rack_id: uuid::Uuid, baseboard: Baseboard, start: SamplerStart) -> (r: Result<Self, Error>)
        ensures
            (start == SamplerStart::Unsupported || start == SamplerStart::Registered) <==> r is Ok,
            forall|m: String| start == SamplerStart::Failed(m) ==> r == Err::<Self, Error>(Error::Kstat(m)),
            forall|m: String| start == SamplerStart::Rejected(m) ==> r == Err::<Self, Error>(Error::Registry(m)),
            r matches Ok(mgr) ==> {
                &&& mgr.wf()
                &&& mgr.sled_id() == sled_id
                &&& mgr.rack_id() == rack_id
                &&& mgr.baseboard() == baseboard
                &&& mgr.supported() == (start == SamplerStart::Registered)
                &&& mgr.links() == Map::<Seq<char>, TargetId>::empty()
            },
    {
        let kstat_supported = match start {
            SamplerStart::Unsupported => false,
            SamplerStart::Registered => true,
            SamplerStart::Failed(m) => {
                return Err(Error::Kstat(m));
            },
            SamplerStart::Rejected(m) => {
                return Err(Error::Registry(m));
            },
        };
        let registry = ProducerRegistry { producer_id: sled_id, kstat_registered: kstat_supported };
        Ok(MetricsManager {
            metadata: SledIdentifiers { sled_id, rack_id, baseboard },
            kstat_supported,
            tracked_links: LinkTracker::new(),
            registry,
        })
    }

    /// The producer registry that the collector polls.
    pub fn registry(&self) -> (r: &ProducerRegistry)
        requires
            self.wf(),
        ensures
            r.producer_id == self.sled_id(),
            r.kstat_registered == self.supported(),
    {
        &self.registry
    }

    /// Whether kernel statistics can be sampled here.
    pub fn is_supported(&self) -> (r: bool)
        ensures
            r == self.supported(),
    {
        self.kstat_supported
    }

    /// The sampler handle tracked under `link_name`.
    pub fn tracked_link(&self, link_name: &str) -> (r: Option<TargetId>)
        requires
            self.wf(),
        ensures
            self.links().contains_key(link_name@) ==> r == Some(self.links()[link_name@]),
            !self.links().contains_key(link_name@) ==> r is None,
    {
        self.tracked_links.get(link_name)
    }

    /// Whether `link_name` is tracked.
    pub fn is_tracking(&self, link_name: &str) -> (r: bool)
        requires
            self.wf(),
        ensures
            r == self.links().contains_key(link_name@),
    {
        self.tracked_links.contains(link_name)
    }

    /// The serial number that labels this sled's metrics.
    pub fn serial_number(&self) -> (r: String)
        ensures
            r@ == serial_of(self.baseboard()),
    {
        self.metadata.baseboard.serial_number()
    }

    /// First step of tracking a physical link: the link to hand the sampler,
    /// given the outcome of fetching this host's name.
    pub fn track_physical_link(&self, link_name: &str, hostname: Result<String, Error>) -> (r: Result<PhysicalDataLink, Error>)
        ensures
            !self.supported() ==> (r matches Err(e) && is_unsupported(e)),
            self.supported() ==> match hostname {
                Err(e) => r == Err::<PhysicalDataLink, Error>(e),
                Ok(h) => (r matches Ok(link) && {
                    &&& link.rack_id == self.rack_id()
                    &&& link.sled_id == self.sled_id()
                    &&& link.serial@ == serial_of(self.baseboard())
                    &&& link.hostname == h
                    &&& link.link_name@ == link_name@
                }),
            },
    {
        if !self.kstat_supported {
            return Err(unsupported());
        }
        let hostname = match hostname {
            Ok(h) => h,
            Err(e) => {
                return Err(e);
            },
        };
        Ok(PhysicalDataLink {
            rack_id: self.metadata.rack_id,
            sled_id: self.metadata.sled_id,
            serial: self.serial_number(),
            hostname,
            link_name: link_name.to_owned(),
        })
    }

    /// Second step of tracking a physical link: records the handle that the
    /// sampler gave for it, replacing any earlier one, which is returned.
    pub fn record_physical_link(&mut self, link_name: &str, added: Result<TargetId, String>) -> (r: Result<Option<TargetId>, Error>)
        requires
            old(self).wf(),
        ensures
            final(self).wf(),
            Self::same_sled(final(self), old(self)),
            !old(self).supported() ==> (r matches Err(e) && is_unsupported(e)) && *final(self) == *old(self),
            old(self).supported() ==> match added {
                Err(m) => r == Err::<Option<TargetId>, Error>(Error::Kstat(m)) && *final(self) == *old(self),
                Ok(id) => {
                    &&& final(self).links() == old(self).links().insert(link_name@, id)
                    &&& old(self).links().contains_key(link_name@) ==> r == Ok::<Option<TargetId>, Error>(Some(old(self).links()[link_name@]))
                    &&& !old(self).links().contains_key(link_name@) ==> r == Ok::<Option<TargetId>, Error>(None)
                },
            },
    {
        if !self.kstat_supported {
            return Err(unsupported());
        }
        match added {
            Ok(id) => Ok(self.tracked_links.insert(link_name.to_owned(), id)),
            Err(m) => Err(Error::Kstat(m)),
        }
    }

    /// Stops tracking a link by name, returning the handle that the sampler
    /// is then to release; a link not tracked is no error.
    pub fn stop_tracking_link(&mut self, link_name: &str) -> (r: Result<Option<TargetId>, Error>)
        requires
            old(self).wf(),
        ensures
            final(self).wf(),
            Self::same_sled(final(self), old(self)),
            !old(self).supported() ==> (r matches Err(e) && is_unsupported(e)) && *final(self) == *old(self),
            old(self).supported() ==> {
                &&& final(self).links() == old(self).links().remove(link_name@)
                &&& old(self).links().contains_key(link_name@) ==> r == Ok::<Option<TargetId>, Error>(Some(old(self).links()[link_name@]))
                &&& !old(self).links().contains_key(link_name@) ==> r == Ok::<Option<TargetId>, Error>(None)
            },
    {
        if !self.kstat_supported {
            return Err(unsupported());
        }
        Ok(self.tracked_links.remove(link_name))
    }

    /// Tracking a virtual link: the link to hand the sampler. Its handle is
    /// not recorded by name.
    pub fn track_virtual_link(&self, link_name: &str, hostname: &str) -> (r: Result<VirtualDataLink, Error>)
        ensures
            !self.supported() ==> (r matches Err(e) && is_unsupported(e)),
            self.supported() ==> (r matches Ok(link) && {
                &&& link.rack_id == self.rack_id()
                &&& link.sled_id == self.sled_id()
                &&& link.serial@ == serial_of(self.baseboard())
                &&& link.hostname@ == hostname@
                &&& link.link_name@ == link_name@
            }),
    {
        if !self.kstat_supported {
            return Err(unsupported());
        }
        Ok(VirtualDataLink {
            rack_id: self.metadata.rack_id,
            sled_id: self.metadata.sled_id,
            serial: self.serial_number(),
            hostname: hostname.to_owned(),
            link_name: link_name.to_owned(),
        })
    }
}

} // verus!
