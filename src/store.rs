//! Record operations: create, look up, re-point, transfer, choose primary.

use vstd::prelude::*;
use crate::registry::{NameRegistry, RegistryView};
use crate::types::{ErrorCode, Event, Record, RecordView};

verus! {

impl NameRegistry {
    /// Inserts the record of `name` and, if `owner` has no primary name yet,
    /// makes `name` its primary.
    pub(crate) fn insert_record(&mut self, name: &String, owner: &String, resolved: &String, timestamp: u64) -> (events: Vec<Event>)
        requires
            old(self).wf(),
            !old(self)@.records.contains_key(name@),
            !old(self)@.pending.contains_key(name@),
        ensures
            final(self).wf(),
            old(self)@.keeps_names(final(self)@),
            final(self)@ == (RegistryView {
                records: old(self)@.records.insert(
                    name@,
                    RecordView { owner: owner@, resolved: resolved@, updated_at: timestamp },
                ),
                primary_names: old(self)@.primaries_after_claim(owner@, name@),
                ..old(self)@
            }),
            events@ == if old(self)@.primary_names.contains_key(owner@) {
                Seq::<Event>::empty()
            } else {
                seq![Event::PrimaryNameSet { owner: *owner, name: *name }]
            },
    {
        let record = Record { owner: owner.clone(), resolved: resolved.clone(), updated_at: timestamp };
        self.records.insert(name.clone(), record);
        let mut events: Vec<Event> = Vec::new();
        if !self.primary_names.contains_key(owner.as_str()) {
            self.primary_names.insert(owner.clone(), name.clone());
            events.push(Event::PrimaryNameSet { owner: owner.clone(), name: name.clone() });
        }
        assert(self@.records =~= old(self)@.records.insert(
            name@,
            RecordView { owner: owner@, resolved: resolved@, updated_at: timestamp },
        ));
        assert(self@.primary_names =~= old(self)@.primaries_after_claim(owner@, name@));
        events
    }

    /// Creates the record of `name`, owned by `owner` and pointing at
    /// `resolved`; refuses a name that is registered or reserved.
    pub fn create(&mut self, name: String, owner: String, resolved: String, timestamp: u64) -> (r: Result<Vec<Event>, ErrorCode>)
        requires
            old(self).wf(),
        ensures
            final(self).wf(),
            old(self)@.keeps_names(final(self)@),
            r is Ok <==> old(self)@.available(name@),
            r is Err ==> r == Err::<Vec<Event>, ErrorCode>(ErrorCode::NameTaken) && final(self)@ == old(self)@,
            r is Ok ==> final(self)@ == (RegistryView {
                records: old(self)@.records.insert(
                    name@,
                    RecordView { owner: owner@, resolved: resolved@, updated_at: timestamp },
                ),
                primary_names: old(self)@.primaries_after_claim(owner@, name@),
                ..old(self)@
            }),
    {
        if self.records.contains_key(name.as_str()) || self.pending.contains_key(name.as_str()) {
            return Err(ErrorCode::NameTaken);
        }
        let events = self.insert_record(&name, &owner, &resolved, timestamp);
        Ok(events)
    }

    /// Hands `name` to `new_owner`. Only the owner may do so. The old owner
    /// loses `name` as primary name (no other name replaces it); the new
    /// owner gains it as primary only if it has none.
    pub fn transfer_name(&mut self, caller: &String, name: String, new_owner: String, now: u64) -> (r: Result<Vec<Event>, ErrorCode>)
        requires
            old(self).wf(),
        ensures
            final(self).wf(),
            old(self)@.keeps_names(final(self)@),
            !old(self)@.records.contains_key(name@) ==> r == Err::<Vec<Event>, ErrorCode>(ErrorCode::NotFound),
            old(self)@.records.contains_key(name@) && old(self)@.records[name@].owner != caller@
                ==> r == Err::<Vec<Event>, ErrorCode>(ErrorCode::Unauthorized),
            r is Err ==> final(self)@ == old(self)@,
            r is Ok <==> old(self)@.records.contains_key(name@) && old(self)@.records[name@].owner == caller@,
            r matches Ok(events) ==> {
                &&& old(self)@.transferred(final(self)@, name@, caller@, new_owner@, now)
                &&& events@ == seq![
                    Event::OwnershipTransferred {
                        name,
                        old_owner: old(self).records@[name@].owner,
                        new_owner,
                    },
                ] + if old(self)@.primaries_without(name@, caller@).contains_key(new_owner@) {
                    Seq::<Event>::empty()
                } else {
                    seq![Event::PrimaryNameSet { owner: new_owner, name }]
                }
            },
    {
        let rec = match self.records.get(name.as_str()) {
            None => {
                return Err(ErrorCode::NotFound);
            },
            Some(rec) => rec.duplicate(),
        };
        if rec.owner != *caller {
            return Err(ErrorCode::Unauthorized);
        }
        let mut events: Vec<Event> = Vec::new();
        events.push(
            Event::OwnershipTransferred {
                name: name.clone(),
                old_owner: rec.owner.clone(),
                new_owner: new_owner.clone(),
            },
        );
        let updated = Record { owner: new_owner.clone(), resolved: rec.resolved, updated_at: now };
        self.records.insert(name.clone(), updated);
        let was_primary = match self.primary_names.get(rec.owner.as_str()) {
            Some(p) => *p == name,
            None => false,
        };
        if was_primary {
            self.primary_names.remove(rec.owner.as_str());
        }
        if !self.primary_names.contains_key(new_owner.as_str()) {
            self.primary_names.insert(new_owner.clone(), name.clone());
            events.push(Event::PrimaryNameSet { owner: new_owner, name });
        }
        assert(self@.records =~= old(self)@.records.insert(
            name@,
            RecordView { owner: new_owner@, updated_at: now, ..old(self)@.records[name@] },
        ));
        assert(self@.primary_names =~= old(self)@.primaries_after_transfer(name@, caller@, new_owner@));
        assert(old(self)@.transferred(self@, name@, caller@, new_owner@, now));
        assert(self@.records.dom() =~= old(self)@.records.dom());
        Ok(events)
    }

    /// Points `name` at `new_resolved`. Only the owner may do so.
    pub fn set_resolved_address(&mut self, caller: &String, name: String, new_resolved: String, now: u64) -> (r: Result<Vec<Event>, ErrorCode>)
        requires
            old(self).wf(),
        ensures
            final(self).wf(),
            old(self)@.keeps_names(final(self)@),
            !old(self)@.records.contains_key(name@) ==> r == Err::<Vec<Event>, ErrorCode>(ErrorCode::NotFound),
            old(self)@.records.contains_key(name@) && old(self)@.records[name@].owner != caller@
                ==> r == Err::<Vec<Event>, ErrorCode>(ErrorCode::Unauthorized),
            r is Err ==> final(self)@ == old(self)@,
            r is Ok <==> old(self)@.records.contains_key(name@) && old(self)@.records[name@].owner == caller@,
            r matches Ok(events) ==> {
                &&& final(self)@ == (RegistryView {
                    records: old(self)@.records.insert(
                        name@,
                        RecordView { resolved: new_resolved@, updated_at: now, ..old(self)@.records[name@] },
                    ),
                    ..old(self)@
                })
                &&& events@ == seq![
                    Event::ResolvedUpdated {
                        name,
                        owner: old(self).records@[name@].owner,
                        resolved: new_resolved,
                    },
                ]
            },
    {
        let rec = match self.records.get(name.as_str()) {
            None => {
                return Err(ErrorCode::NotFound);
            },
            Some(rec) => rec.duplicate(),
        };
        if rec.owner != *caller {
            return Err(ErrorCode::Unauthorized);
        }
        let event = Event::ResolvedUpdated {
            name: name.clone(),
            owner: rec.owner.clone(),
            resolved: new_resolved.clone(),
        };
        let updated = Record { owner: rec.owner, resolved: new_resolved, updated_at: now };
        self.records.insert(name, updated);
        assert(self@.records =~= old(self)@.records.insert(
            name@,
            RecordView { resolved: new_resolved@, updated_at: now, ..old(self)@.records[name@] },
        ));
        Ok(vec![event])
    }

    /// Makes `name` the caller's primary name, replacing any earlier one.
    /// Only the owner of `name` may do so.
    pub fn set_primary_name(&mut self, caller: &String, name: String) -> (r: Result<Vec<Event>, ErrorCode>)
        requires
            old(self).wf(),
        ensures
            final(self).wf(),
            old(self)@.keeps_names(final(self)@),
            !old(self)@.records.contains_key(name@) ==> r == Err::<Vec<Event>, ErrorCode>(ErrorCode::NotFound),
            old(self)@.records.contains_key(name@) && old(self)@.records[name@].owner != caller@
                ==> r == Err::<Vec<Event>, ErrorCode>(ErrorCode::Unauthorized),
            r is Err ==> final(self)@ == old(self)@,
            r is Ok <==> old(self)@.records.contains_key(name@) && old(self)@.records[name@].owner == caller@,
            r matches Ok(events) ==> {
                &&& final(self)@ == (RegistryView {
                    primary_names: old(self)@.primary_names.insert(caller@, name@),
                    ..old(self)@
                })
                &&& events@ == seq![Event::PrimaryNameSet { owner: *caller, name }]
            },
    {
        match self.records.get(name.as_str()) {
            None => {
                return Err(ErrorCode::NotFound);
            },
            Some(rec) => {
                if rec.owner != *caller {
                    return Err(ErrorCode::Unauthorized);
                }
            },
        }
        self.primary_names.insert(caller.clone(), name.clone());
        assert(self@.primary_names =~= old(self)@.primary_names.insert(caller@, name@));
        Ok(vec![Event::PrimaryNameSet { owner: caller.clone(), name }])
    }

    /// The record of `name`, if registered.
    pub fn get_record(&self, name: &str) -> (r: Option<Record>)
        ensures
            match r {
                Some(rec) => self@.record(name@) == Some(rec@),
                None => self@.record(name@) is None,
            },
    {
        match self.records.get(name) {
            Some(rec) => Some(rec.duplicate()),
            None => None,
        }
    }

    /// The primary name of `account`, if any.
    pub fn get_primary_name(&self, account: &str) -> (r: Option<String>)
        ensures
            match r {
                Some(n) => self@.primary_of(account@) == Some(n@),
                None => self@.primary_of(account@) is None,
            },
    {
        match self.primary_names.get(account) {
            Some(n) => Some(n.clone()),
            None => None,
        }
    }
}

} // verus!
