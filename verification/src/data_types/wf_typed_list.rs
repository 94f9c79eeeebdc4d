//! A list whose entries share one type.
use vstd::prelude::*;
use std::rc::Rc;
use vstd::string::StringExecFns;
use crate::data_types::WfData;
use crate::data_types::types_def::{WfTypedListType, WfTypeGeneric};
use crate::data_types::view::{checked, lemma_values_from, parsed, share, values};
use crate::data_types::wf_data_type::WfDataType;
use crate::eval_error::{EvalError, EvalErrorKind};
use crate::execution_context::ExecutionContext;
use crate::key_index::KeyIndex;
use crate::model::{ElemTypeV, ListV, Val};
use crate::semantics::{checked_entry, parse_typed_list, split_first};

verus! {

/// The type of a list's elements: as it was given, or refined and checked.
#[derive(Debug)]
pub enum MaybeEvaluated {
    Unchecked(WfData),
    Valid(WfTypeGeneric),
}

impl Clone for MaybeEvaluated {
    fn clone(&self) -> (r: Self)
        ensures
            r == *self,
    {
        match self {
            MaybeEvaluated::Unchecked(d) => MaybeEvaluated::Unchecked(d.clone()),
            MaybeEvaluated::Valid(t) => MaybeEvaluated::Valid(t.clone()),
        }
    }
}

/// A list is one segment: the entries from `start_position` on are the
/// list, and the tail of a list shares the buffer of the list it was taken
/// from.  No list chains into another.
#[derive(Debug)]
pub struct WfTypedList {
    pub entries: Rc<Vec<WfData>>,
    pub inner_type: Rc<MaybeEvaluated>,
    pub start_position: usize,
}

impl Clone for WfTypedList {
    fn clone(&self) -> (r: Self)
        ensures
            r == *self,
    {
        WfTypedList {
            entries: share(&self.entries),
            inner_type: share(&self.inner_type),
            start_position: self.start_position,
        }
    }
}


impl WfTypedList {
    /// The list of `entries` whose elements have the type `element_type`.
    pub fn new(element_type: MaybeEvaluated, entries: Vec<WfData>) -> (r: Self)
        ensures
            r@ == (ListV { elem_type: element_type@, entries: values(entries@) }),
    {
        Self { entries: Rc::new(entries), inner_type: Rc::new(element_type), start_position: 0 }
    }

    /// Brings a position that ran past the entries back to their end.  The
    /// list is one segment, so there is no next segment to switch to: the
    /// entries that are left and the type of the elements stay as they are.
    pub fn switch_to_next_entry_group_as_needed(&mut self)
        ensures
            final(self)@ == old(self)@,
            final(self).start_position <= final(self).entries@.len(),
            old(self).start_position <= old(self).entries@.len() ==> *final(self) == *old(self),
    {
        let total = self.entries.len();
        if self.start_position > total {
            self.start_position = total;
            assert(final(self)@.entries =~= old(self)@.entries);
        }
    }

    /// How many entries are left.
    pub fn len(&self) -> (r: usize)
        ensures
            r == self@.len(),
            r > 0 ==> self.start_position + r == self.entries@.len(),
    {
        if self.start_position <= self.entries.len() {
            self.entries.len() - self.start_position
        } else {
            0
        }
    }

    /// No entry is left.
    pub fn is_empty(&self) -> (r: bool)
        ensures
            r == (self@.len() == 0),
    {
        self.start_position >= self.entries.len()
    }

    /// The entry at position `i` of what is left.
    pub fn get(&self, i: usize) -> (r: Option<WfData>)
        ensures
            match r {
                Some(d) => i < self@.len() && d@ == self@.entries[i as int],
                None => i >= self@.len(),
            },
    {
        let n = self.len();
        if i < n {
            proof {
                lemma_values_from(self.entries@, self.start_position as int);
            }
            let total = self.entries.len();
            assert(self.start_position + n == total);
            Some(self.entries[self.start_position + i].clone())
        } else {
            None
        }
    }

    /// A cursor at the head of the list.  It does not check the entries
    /// against the type of the elements.
    pub fn iter(&self) -> (r: WfTypedListIterator)
        ensures
            r.typed_list@ == self@,
    {
        WfTypedListIterator { typed_list: self.clone() }
    }

    /// The entries that are left, in order.
    pub fn to_vec(&self) -> (r: Vec<WfData>)
        ensures
            values(r@) == self@.entries,
    {
        let n = self.len();
        let mut r: Vec<WfData> = Vec::new();
        let mut i: usize = 0;
        proof {
            if self.start_position <= self.entries@.len() {
                lemma_values_from(self.entries@, self.start_position as int);
            }
        }
        while i < n
            invariant
                i <= n,
                n == self@.len(),
                n > 0 ==> self.start_position + n == self.entries@.len(),
                r@.len() == i,
                forall|j: int| 0 <= j < i ==> r@[j]@ == self@.entries[j],
            decreases n - i,
        {
            proof {
                lemma_values_from(self.entries@, self.start_position as int);
            }
            let total = self.entries.len();
            assert(self.start_position + n == total);
            r.push(self.entries[self.start_position + i].clone());
            i += 1;
        }
        assert(values(r@) =~= self@.entries);
        r
    }

    /// The list without its head, or the list itself if it is empty.
    pub fn tail(&self) -> (r: Self)
        ensures
            self@.len() > 0 ==> r@ == self@.tail(),
            self@.len() == 0 ==> r@ == self@,
    {
        if self.start_position < self.entries.len() {
            let r = WfTypedList {
                entries: share(&self.entries),
                inner_type: share(&self.inner_type),
                start_position: self.start_position + 1,
            };
            proof {
                lemma_values_from(self.entries@, self.start_position as int);
                lemma_values_from(self.entries@, self.start_position as int + 1);
                assert(r@.entries =~= self@.tail().entries);
            }
            r
        } else {
            self.clone()
        }
    }
}

impl WfDataType for WfTypedList {
    open spec fn model(&self) -> Val {
        Val::TypedList(Box::new(self@))
    }

    fn into_wf_data(self) -> (r: WfData) {
        WfData::WfTypedList(self)
    }

    fn is_fully_realised(&self) -> (r: bool) {
        false
    }

    fn get_identity_zid_key(&self) -> (r: Option<KeyIndex>) {
        None
    }

    fn get_key(&self, key: KeyIndex) -> (r: Option<WfData>) {
        if key == (KeyIndex { z: 1, k: 1 }) {
            let inner: &MaybeEvaluated = &self.inner_type;
            match inner {
                MaybeEvaluated::Unchecked(v) => Some(v.clone()),
                MaybeEvaluated::Valid(v) => Some(WfTypedListType::new(v.clone()).into_wf_data()),
            }
        } else if key == (KeyIndex { z: 0, k: 1 }) {
            self.get(0)
        } else if key == (KeyIndex { z: 0, k: 2 }) {
            if !self.is_empty() {
                Some(WfData::WfTypedList(self.tail()))
            } else {
                None
            }
        } else {
            None
        }
    }

    fn list_keys(&self) -> (r: Vec<KeyIndex>) {
        if self.is_empty() {
            let r = vec![KeyIndex { z: 1, k: 1 }];
            assert(r@ =~= self.model().keys());
            r
        } else {
            let r = vec![KeyIndex { z: 1, k: 1 }, KeyIndex { z: 0, k: 1 }, KeyIndex { z: 0, k: 2 }];
            assert(r@ =~= self.model().keys());
            r
        }
    }
}


pub open spec fn context_model(context: Option<&ExecutionContext>) -> Option<crate::semantics::Env> {
    match context {
        Some(c) => Some(c@),
        None => None,
    }
}

pub open spec fn split_model(r: Result<(WfData, WfTypedList), (EvalError, WfTypedList)>) -> Result<
    (Val, ListV),
    (crate::model::ErrV, ListV),
> {
    match r {
        Ok((h, t)) => Ok((h@, t@)),
        Err((e, l)) => Err((e@, l@)),
    }
}

impl WfTypedList {
    /// Reads a value as a list.  Only a value that is a list already can
    /// be read as one.
    pub fn parse(data: WfData, _context: &ExecutionContext) -> (r: Result<Self, (EvalError, WfData)>)
        ensures
            parsed(r) == parse_typed_list(data@),
    {
        if let WfData::WfTypedList(d) = &data {
            return Ok(d.clone());
        }
        Err((EvalError::unimplemented(String::from_str("parsing typed list from key")), data))
    }

    /// The entry at position `i`, evaluated and checked against the type
    /// of the elements.
    pub fn checked_entry(&self, i: usize, context: &ExecutionContext) -> (r: Result<
        WfData,
        EvalError,
    >)
        ensures
            checked(r) == checked_entry(self@, i as int, context@),
        decreases context@.steps, 0nat,
    {
        let entry = match self.get(i) {
            Some(e) => e,
            None => {
                return Err(EvalError::from_kind(EvalErrorKind::CantGetHeadOfEmptyList));
            },
        };
        let inner = match context.step() {
            Ok(c) => c,
            Err(e) => {
                return Err(e);
            },
        };
        let head = match entry.evaluate(&inner) {
            Ok(v) => v,
            Err((e, _)) => {
                return Err(e);
            },
        };
        let element: &MaybeEvaluated = &self.inner_type;
        match element {
            MaybeEvaluated::Unchecked(_) => Err(
                EvalError::unimplemented(String::from_str("checking against an unrefined type")),
            ),
            MaybeEvaluated::Valid(ty) => match head.check_type_compatibility(ty.clone(), &inner) {
                Err(e) => Err(e),
                Ok(()) => Ok(head),
            },
        }
    }

    /// The head and the tail of the list.  With a context the head is
    /// evaluated and checked against the type of the elements.
    pub fn split_first_element(self, context: Option<&ExecutionContext>) -> (r: Result<
        (WfData, Self),
        (EvalError, Self),
    >)
        ensures
            split_model(r) == split_first(self@, context_model(context)),
        decreases
                (match context {
                    Some(c) => c@.steps,
                    None => 0nat,
                }),
                1nat,
    {
        match context {
            None => match self.get(0) {
                Some(head) => {
                    let tail = self.tail();
                    Ok((head, tail))
                },
                None => Err((EvalError::from_kind(EvalErrorKind::CantGetHeadOfEmptyList), self)),
            },
            Some(context) => match self.checked_entry(0, context) {
                Err(e) => Err((e, self)),
                Ok(head) => {
                    let tail = self.tail();
                    Ok((head, tail))
                },
            },
        }
    }

    /// A cursor at the head of the list that evaluates each entry and checks
    /// it against the type of the elements.
    pub fn iter_checked<'l>(&self, context: &'l ExecutionContext) -> (r: WfTypedListCheckedIterator<
        'l,
    >)
        ensures
            r.typed_list@ == self@,
            r.context@ == context@,
    {
        WfTypedListCheckedIterator { typed_list: self.clone(), context }
    }
}

/// A cursor into a list.  It holds a handle on the list, not a copy of the
/// entries.
pub struct WfTypedListIterator {
    pub typed_list: WfTypedList,
}

impl WfTypedListIterator {
    /// The entry at the cursor, with the cursor moved past it; `None` at the
    /// end of the list.
    pub fn next(&mut self) -> (r: Option<WfData>)
        ensures
            match r {
                Some(d) => old(self).typed_list@.len() > 0 && d@ == old(
                    self,
                ).typed_list@.entries[0] && final(self).typed_list@ == old(
                    self,
                ).typed_list@.tail(),
                None => old(self).typed_list@.len() == 0 && final(self).typed_list@ == old(
                    self,
                ).typed_list@,
            },
    {
        match self.typed_list.get(0) {
            Some(element) => {
                self.typed_list = self.typed_list.tail();
                Some(element)
            },
            None => None,
        }
    }
}

/// A cursor into a list that evaluates and checks what it passes.
pub struct WfTypedListCheckedIterator<'l> {
    pub typed_list: WfTypedList,
    pub context: &'l ExecutionContext,
}

impl<'l> WfTypedListCheckedIterator<'l> {
    /// The entry at the cursor, evaluated and checked against the type of
    /// the elements, with the cursor moved past it whether the entry
    /// passed or not; `None` at the end of the list.
    pub fn next(&mut self) -> (r: Option<Result<WfData, EvalError>>)
        ensures
            final(self).context@ == old(self).context@,
            match r {
                Some(entry) => old(self).typed_list@.len() > 0 && checked(entry) == checked_entry(
                    old(self).typed_list@,
                    0,
                    old(self).context@,
                ) && final(self).typed_list@ == old(self).typed_list@.tail(),
                None => old(self).typed_list@.len() == 0 && final(self).typed_list@ == old(
                    self,
                ).typed_list@,
            },
    {
        if self.typed_list.is_empty() {
            None
        } else {
            let entry = self.typed_list.checked_entry(0, self.context);
            self.typed_list = self.typed_list.tail();
            Some(entry)
        }
    }
}

} // verus!
