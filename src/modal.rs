use vstd::prelude::*;

verus! {

/// A platform handle that a modal layer needed could not be had.
#[derive(Debug, Clone, PartialEq, Eq, Structural)]
pub enum ModalError {
    WindowUnavailable,
    DocumentUnavailable,
    BodyUnavailable,
    AttributeUnavailable,
}

/// One element that a layer hid: `key` identifies the element (equal keys
/// mean the same element) and `record` is what the host needs to put it back.
#[derive(Debug)]
pub struct HiddenElement<R> {
    pub key: u64,
    pub record: R,
}

/// One active "hide everything but me" request.
#[derive(Debug)]
pub struct ModalLayer<R> {
    pub id: u64,
    pub hidden: Vec<HiddenElement<R>>,
}

/// Abstract layer: its id and the elements it hid, in order.
pub struct LayerView<R> {
    pub id: u64,
    pub hidden: Seq<HiddenElement<R>>,
}

impl<R> View for ModalLayer<R> {
    type V = LayerView<R>;

    open spec fn view(&self) -> LayerView<R> {
        LayerView { id: self.id, hidden: self.hidden@ }
    }
}

/// Abstract layer stack: the next id to hand out and the active layers, oldest first.
pub struct ModalStackView<R> {
    pub next_id: u64,
    pub layers: Seq<LayerView<R>>,
}

/// Some active layer lists the element `key`.
pub open spec fn masked_by<R>(layers: Seq<LayerView<R>>, key: u64) -> bool {
    exists|l: int, j: int|
        0 <= l < layers.len() && 0 <= j < layers[l].hidden.len() && (#[trigger] layers[l].hidden[j]).key == key
}

/// The elements of `hidden` that no layer of `layers` lists, in order.
pub open spec fn unmasked<R>(layers: Seq<LayerView<R>>, hidden: Seq<HiddenElement<R>>) -> Seq<HiddenElement<R>>
    decreases hidden.len(),
{
    if hidden.len() == 0 {
        Seq::empty()
    } else if masked_by(layers, hidden.last().key) {
        unmasked(layers, hidden.drop_last())
    } else {
        unmasked(layers, hidden.drop_last()).push(hidden.last())
    }
}

/// Position of the first layer with id `id`.
pub open spec fn layer_position<R>(layers: Seq<LayerView<R>>, id: u64, p: int) -> bool {
    &&& 0 <= p < layers.len()
    &&& layers[p].id == id
    &&& forall|q: int| 0 <= q < p ==> (#[trigger] layers[q]).id != id
}

/// Some layer has id `id`.
pub open spec fn has_layer<R>(layers: Seq<LayerView<R>>, id: u64) -> bool {
    exists|p: int| 0 <= p < layers.len() && (#[trigger] layers[p]).id == id
}

impl<R> ModalStackView<R> {
    /// Ids handed out so far are all below `next_id`.
    pub open spec fn wf(self) -> bool {
        forall|l: int| 0 <= l < self.layers.len() ==> (#[trigger] self.layers[l]).id < self.next_id
    }

    /// The stack after a layer hiding `hidden` is pushed under the next id.
    pub open spec fn pushed(self, hidden: Seq<HiddenElement<R>>) -> ModalStackView<R> {
        ModalStackView {
            next_id: if self.next_id == u64::MAX { self.next_id } else { (self.next_id + 1) as u64 },
            layers: self.layers.push(LayerView { id: self.next_id, hidden }),
        }
    }

    /// The first layer with id `id`, if any.
    pub open spec fn position(self, id: u64) -> int {
        choose|p: int| layer_position(self.layers, id, p)
    }

    /// The stack after the layer `id` is released; unchanged when there is none.
    pub open spec fn released(self, id: u64) -> ModalStackView<R> {
        if has_layer(self.layers, id) {
            ModalStackView { next_id: self.next_id, layers: self.layers.remove(self.position(id)) }
        } else {
            self
        }
    }

    /// The elements that releasing layer `id` puts back: those it hid that no
    /// layer still active lists.
    pub open spec fn restored_by(self, id: u64) -> Seq<HiddenElement<R>> {
        if has_layer(self.layers, id) {
            unmasked(self.released(id).layers, self.layers[self.position(id)].hidden)
        } else {
            Seq::empty()
        }
    }
}

/// The process-wide stack of modal layers.
#[derive(Debug)]
pub struct ModalState<R> {
    next_id: u64,
    layers: Vec<ModalLayer<R>>,
}

impl<R> View for ModalState<R> {
    type V = ModalStackView<R>;

    closed spec fn view(&self) -> ModalStackView<R> {
        ModalStackView { next_id: self.next_id, layers: self.layers@.map_values(|l: ModalLayer<R>| l@) }
    }
}

/// Platform side of a modal layer.
pub trait ModalHost<T, R> {
    /// The host never fails; a host that claims so proves it of its methods.
    open spec fn infallible(&self) -> bool {
        false
    }

    /// The host keeps the record below of what it did; a host that claims so
    /// proves it of its methods.
    open spec fn records(&self) -> bool {
        false
    }

    /// The lists of elements hidden so far, one list per successful
    /// `hide_siblings`, in order.
    open spec fn hid(&self) -> Seq<Seq<HiddenElement<R>>> {
        Seq::empty()
    }

    /// The keys of the elements put back so far, in order.
    open spec fn restored(&self) -> Seq<u64> {
        Seq::empty()
    }

    /// Marks every sibling of `root` hidden and inert, and returns for each
    /// what it takes to put it back.
    fn hide_siblings(&mut self, root: &T) -> (r: Result<Vec<HiddenElement<R>>, ModalError>)
        ensures
            old(self).infallible() ==> r is Ok && final(self).infallible(),
            old(self).records() ==> final(self).records() && final(self).restored() == old(self).restored()
                && final(self).hid() == match r {
                Ok(hidden) => old(self).hid().push(hidden@),
                Err(_) => old(self).hid(),
            };

    /// Puts one hidden element back as it was.
    fn restore(&mut self, item: &HiddenElement<R>) -> (r: Result<(), ModalError>)
        ensures
            old(self).infallible() ==> r is Ok && final(self).infallible(),
            old(self).records() ==> final(self).records() && final(self).hid() == old(self).hid()
                && final(self).restored() == if r is Ok {
                old(self).restored().push(item.key)
            } else {
                old(self).restored()
            };
}

/// Host for targets without a document: there is nothing to hide.
pub struct InertModalHost {
    hid: Ghost<Seq<Seq<HiddenElement<()>>>>,
    restored: Ghost<Seq<u64>>,
}

impl InertModalHost {
    /// A host that has done nothing yet.
    pub fn new() -> (r: Self)
        ensures
            r.hid() == Seq::<Seq<HiddenElement<()>>>::empty(),
            r.restored() == Seq::<u64>::empty(),
            r.records(),
            r.infallible(),
    {
        InertModalHost { hid: Ghost(Seq::empty()), restored: Ghost(Seq::empty()) }
    }
}

impl ModalHost<(), ()> for InertModalHost {
    open spec fn infallible(&self) -> bool {
        true
    }

    open spec fn records(&self) -> bool {
        true
    }

    closed spec fn hid(&self) -> Seq<Seq<HiddenElement<()>>> {
        self.hid@
    }

    closed spec fn restored(&self) -> Seq<u64> {
        self.restored@
    }

    fn hide_siblings(&mut self, root: &()) -> (r: Result<Vec<HiddenElement<()>>, ModalError>)
        ensures
            r matches Ok(hidden) && hidden@.len() == 0,
    {
        let hidden: Vec<HiddenElement<()>> = Vec::new();
        self.hid = Ghost(self.hid@.push(hidden@));
        Ok(hidden)
    }

    fn restore(&mut self, item: &HiddenElement<()>) -> (r: Result<(), ModalError>)
        ensures
            r is Ok,
    {
        self.restored = Ghost(self.restored@.push(item.key));
        Ok(())
    }
}

/// The keys of a list of hidden elements.
pub open spec fn keys<R>(hidden: Seq<HiddenElement<R>>) -> Seq<u64> {
    hidden.map_values(|h: HiddenElement<R>| h.key)
}

/// Handle to one layer; releasing it twice is harmless.
#[derive(Debug)]
pub struct ModalGuard {
    id: u64,
    active: bool,
}

impl ModalGuard {
    pub closed spec fn layer_id(&self) -> u64 {
        self.id
    }

    pub closed spec fn is_active(&self) -> bool {
        self.active
    }

    pub fn id(&self) -> (r: u64)
        ensures
            r == self.layer_id(),
    {
        self.id
    }

    pub fn active(&self) -> (r: bool)
        ensures
            r == self.is_active(),
    {
        self.active
    }

    /// Releases the layer if this guard has not done so yet.
    pub fn release<T, R, H: ModalHost<T, R>>(&mut self, state: &mut ModalState<R>, host: &mut H) -> (r: Result<(), ModalError>)
        ensures
            final(self).layer_id() == old(self).layer_id(),
            !old(self).is_active() ==> r is Ok && *final(state) == *old(state) && !final(self).is_active(),
            old(self).is_active() && r is Ok ==> final(state)@ == old(state)@.released(old(self).layer_id())
                && !final(self).is_active(),
            r is Err ==> *final(state) == *old(state) && final(self).is_active(),
            old(host).infallible() ==> r is Ok,
            old(self).is_active() && old(state)@.restored_by(old(self).layer_id()).len() == 0 ==> r is Ok
                && *final(host) == *old(host),
            old(host).records() ==> final(host).records() && final(host).hid() == old(host).hid(),
            old(host).records() && r is Ok ==> final(host).restored() == old(host).restored() + (if old(
                self,
            ).is_active() {
                keys(old(state)@.restored_by(old(self).layer_id()))
            } else {
                Seq::empty()
            }),
    {
        if !self.active {
            return Ok(());
        }
        match modal_restore(state, host, self.id) {
            Ok(()) => {
                self.active = false;
                Ok(())
            },
            Err(e) => Err(e),
        }
    }
}

impl<R> ModalState<R> {
    /// An empty stack.
    pub fn new() -> (r: Self)
        ensures
            r@.next_id == 0,
            r@.layers.len() == 0,
            r@.wf(),
    {
        ModalState { next_id: 0, layers: Vec::new() }
    }

    /// Number of active layers.
    pub fn layer_count(&self) -> (r: usize)
        ensures
            r == self@.layers.len(),
    {
        self.layers.len()
    }

    /// Pushes a layer that hid `hidden` and returns its id.
    pub fn push_layer(&mut self, hidden: Vec<HiddenElement<R>>) -> (r: u64)
        ensures
            r == old(self)@.next_id,
            final(self)@ == old(self)@.pushed(hidden@),
            old(self)@.wf() && old(self)@.next_id < u64::MAX ==> final(self)@.wf(),
    {
        let id = self.next_id;
        let ghost before = self@.layers;
        self.next_id = self.next_id.saturating_add(1);
        self.layers.push(ModalLayer { id, hidden });
        proof {
            assert(self@.layers =~= before.push(LayerView { id, hidden: hidden@ }));
        }
        id
    }

    fn find_layer(&self, id: u64) -> (r: Option<usize>)
        ensures
            match r {
                Some(p) => layer_position(self@.layers, id, p as int),
                None => !has_layer(self@.layers, id),
            },
    {
        let mut p: usize = 0;
        while p < self.layers.len()
            invariant
                p <= self.layers@.len(),
                forall|q: int| 0 <= q < p ==> (#[trigger] self.layers@[q]).id != id,
            decreases self.layers@.len() - p,
        {
            if self.layers[p].id == id {
                proof {
                    assert(self@.layers[p as int] == self.layers@[p as int]@);
                    assert forall|q: int| 0 <= q < p implies (#[trigger] self@.layers[q]).id != id by {
                        assert(self@.layers[q] == self.layers@[q]@);
                    }
                }
                return Some(p);
            }
            p = p + 1;
        }
        proof {
            assert forall|q: int| 0 <= q < self@.layers.len() implies (#[trigger] self@.layers[q]).id != id by {
                assert(self@.layers[q] == self.layers@[q]@);
            }
        }
        None
    }

    fn is_masked_except(&self, p: usize, key: u64) -> (r: bool)
        requires
            p < self@.layers.len(),
        ensures
            r == masked_by(self@.layers.remove(p as int), key),
    {
        let ghost ls = self@.layers;
        let ghost rest = ls.remove(p as int);
        let mut l: usize = 0;
        while l < self.layers.len()
            invariant
                ls == self@.layers,
                rest == ls.remove(p as int),
                p < ls.len(),
                l <= self.layers@.len(),
                forall|a: int, j: int|
                    0 <= a < l && a != p && 0 <= j < ls[a].hidden.len() ==> (#[trigger] ls[a].hidden[j]).key != key,
            decreases self.layers@.len() - l,
        {
            if l != p {
                let hidden = &self.layers[l].hidden;
                assert(ls[l as int].hidden == hidden@);
                let mut j: usize = 0;
                while j < hidden.len()
                    invariant
                        ls == self@.layers,
                        rest == ls.remove(p as int),
                        p < ls.len(),
                        l < self.layers@.len(),
                        l != p,
                        ls[l as int].hidden == hidden@,
                        j <= hidden@.len(),
                        forall|b: int| 0 <= b < j ==> (#[trigger] hidden@[b]).key != key,
                    decreases hidden@.len() - j,
                {
                    if hidden[j].key == key {
                        proof {
                            let w: int = if l < p { l as int } else { l - 1 };
                            assert(rest[w] == ls[l as int]);
                            assert(rest[w].hidden[j as int].key == key);
                        }
                        return true;
                    }
                    j = j + 1;
                }
            }
            l = l + 1;
        }
        proof {
            assert forall|a: int, j: int|
                0 <= a < rest.len() && 0 <= j < rest[a].hidden.len() implies (#[trigger] rest[a].hidden[j]).key != key by {
                if a < p {
                    assert(rest[a] == ls[a]);
                } else {
                    assert(rest[a] == ls[a + 1]);
                }
            }
        }
        false
    }

    /// For layer `id`, the positions within its hidden elements of those that
    /// releasing it puts back, in order; empty when there is no such layer.
    pub fn restore_plan(&self, id: u64) -> (r: Vec<usize>)
        ensures
            r@.len() == self@.restored_by(id).len(),
            has_layer(self@.layers, id) ==> forall|k: int|
                0 <= k < r@.len() ==> #[trigger] r@[k] < self@.layers[self@.position(id)].hidden.len()
                    && self@.layers[self@.position(id)].hidden[r@[k] as int] == self@.restored_by(id)[k],
    {
        let ghost v = self@;
        match self.find_layer(id) {
            None => Vec::new(),
            Some(p) => {
                proof {
                    assert(has_layer(v.layers, id));
                    let q = v.position(id);
                    assert(layer_position(v.layers, id, q));
                    assert(q == p as int) by {
                        if q < p as int {
                            assert(v.layers[q].id != id);
                        } else if q > p as int {
                            assert(v.layers[p as int].id != id);
                        }
                    }
                    assert(v.released(id).layers == v.layers.remove(p as int));
                }
                let hidden = &self.layers[p].hidden;
                let ghost all = hidden@;
                let ghost rest = v.layers.remove(p as int);
                assert(v.layers[p as int].hidden == all);
                let mut out: Vec<usize> = Vec::new();
                let mut j: usize = 0;
                proof {
                    assert(all.subrange(0, 0) =~= Seq::<HiddenElement<R>>::empty());
                }
                while j < hidden.len()
                    invariant
                        v == self@,
                        p < v.layers.len(),
                        all == hidden@,
                        rest == v.layers.remove(p as int),
                        j <= all.len(),
                        out@.len() == unmasked(rest, all.subrange(0, j as int)).len(),
                        forall|k: int|
                            0 <= k < out@.len() ==> #[trigger] out@[k] < j && all[out@[k] as int] == unmasked(
                                rest,
                                all.subrange(0, j as int),
                            )[k],
                    decreases all.len() - j,
                {
                    let masked = self.is_masked_except(p, hidden[j].key);
                    proof {
                        assert(all.subrange(0, j + 1).drop_last() =~= all.subrange(0, j as int));
                        assert(all.subrange(0, j + 1).last() == all[j as int]);
                    }
                    if !masked {
                        out.push(j);
                    }
                    j = j + 1;
                }
                proof {
                    assert(all.subrange(0, all.len() as int) =~= all);
                }
                out
            },
        }
    }

    /// Removes layer `id` if it is active.
    fn remove_layer(&mut self, id: u64)
        ensures
            final(self)@ == old(self)@.released(id),
    {
        let ghost v = self@;
        match self.find_layer(id) {
            None => {},
            Some(p) => {
                proof {
                    assert(has_layer(v.layers, id));
                    let q = v.position(id);
                    assert(layer_position(v.layers, id, q));
                    assert(q == p as int) by {
                        if q < p as int {
                            assert(v.layers[q].id != id);
                        } else if q > p as int {
                            assert(v.layers[p as int].id != id);
                        }
                    }
                }
                let _removed = self.layers.remove(p);
                proof {
                    assert(self@.layers =~= v.layers.remove(p as int));
                }
            },
        }
    }
}

/// Hides every sibling of `root` under a new layer. When the host fails, the
/// stack is left as it was.
pub fn modal_hide_siblings<T, R, H: ModalHost<T, R>>(state: &mut ModalState<R>, host: &mut H, root: &T) -> (r: Result<ModalGuard, ModalError>)
    ensures
        r is Err ==> *final(state) == *old(state),
        old(host).infallible() ==> r is Ok,
        old(host).records() ==> final(host).records() && final(host).restored() == old(host).restored(),
        old(host).records() && r is Ok ==> final(host).hid() == old(host).hid().push(final(state)@.layers.last().hidden),
        old(host).records() && r is Err ==> final(host).hid() == old(host).hid(),
        r matches Ok(g) ==> g.is_active() && g.layer_id() == old(state)@.next_id && exists|hidden: Seq<HiddenElement<R>>|
            final(state)@ == #[trigger] old(state)@.pushed(hidden),
{
    match host.hide_siblings(root) {
        Err(e) => Err(e),
        Ok(hidden) => {
            let id = state.push_layer(hidden);
            Ok(ModalGuard { id, active: true })
        },
    }
}

/// Releases layer `id`, first putting back through the host each element it
/// hid that no other active layer lists (see `restore_plan`). An unknown id
/// is a no-op. When the host fails, the stack is left as it was, so the call
/// can be repeated.
pub fn modal_restore<T, R, H: ModalHost<T, R>>(state: &mut ModalState<R>, host: &mut H, id: u64) -> (r: Result<(), ModalError>)
    ensures
        r is Ok ==> final(state)@ == old(state)@.released(id),
        r is Err ==> *final(state) == *old(state),
        !has_layer(old(state)@.layers, id) ==> r is Ok && *final(host) == *old(host),
        old(state)@.restored_by(id).len() == 0 ==> r is Ok && *final(host) == *old(host),
        old(host).infallible() ==> r is Ok,
        old(host).records() ==> final(host).records() && final(host).hid() == old(host).hid(),
        old(host).records() && r is Ok ==> final(host).restored() == old(host).restored() + keys(
            old(state)@.restored_by(id),
        ),
        old(state)@.wf() ==> final(state)@.wf(),
{
    let p = match state.find_layer(id) {
        None => return Ok(()),
        Some(p) => p,
    };
    let plan = state.restore_plan(id);
    let mut k: usize = 0;
    while k < plan.len()
        invariant
            *state == *old(state),
            p < state@.layers.len(),
            has_layer(state@.layers, id),
            state@.position(id) == p,
            forall|k: int| 0 <= k < plan@.len() ==> #[trigger] plan@[k] < state@.layers[p as int].hidden.len(),
            plan@.len() == old(state)@.restored_by(id).len(),
            plan@.len() == 0 ==> *host == *old(host),
            old(host).infallible() ==> host.infallible(),
            forall|k: int|
                0 <= k < plan@.len() ==> state@.layers[p as int].hidden[#[trigger] plan@[k] as int]
                    == old(state)@.restored_by(id)[k],
            old(host).records() ==> host.records() && host.hid() == old(host).hid() && host.restored()
                == old(host).restored() + keys(old(state)@.restored_by(id).subrange(0, k as int)),
            k <= plan@.len(),
        decreases plan@.len() - k,
    {
        let layer = &state.layers[p];
        assert(layer@ == state@.layers[p as int]);
        let item = &layer.hidden[plan[k]];
        assert(item.key == old(state)@.restored_by(id)[k as int].key);
        match host.restore(item) {
            Ok(()) => {},
            Err(e) => {
                return Err(e);
            },
        }
        proof {
            let all = old(state)@.restored_by(id);
            assert(keys(all.subrange(0, k + 1)) =~= keys(all.subrange(0, k as int)).push(all[k as int].key));
            assert(old(host).restored() + keys(all.subrange(0, k + 1)) =~= (old(host).restored() + keys(
                all.subrange(0, k as int),
            )).push(all[k as int].key));
        }
        k = k + 1;
    }
    proof {
        let all = old(state)@.restored_by(id);
        assert(all.subrange(0, plan@.len() as int) =~= all);
    }
    state.remove_layer(id);
    Ok(())
}

/// An outer layer and an inner one pushed after it onto a stack with no other
/// layer: releasing the inner one puts back no element that the outer one
/// hides, and releasing the outer one afterwards puts back every element it hid.
pub proof fn lemma_overlapping_layers<R>(
    st: ModalStackView<R>,
    outer: Seq<HiddenElement<R>>,
    inner: Seq<HiddenElement<R>>,
)
    requires
        st.layers.len() == 0,
        st.next_id < u64::MAX,
    ensures
        ({
            let outer_id = st.next_id;
            let s1 = st.pushed(outer);
            let inner_id = s1.next_id;
            let s2 = s1.pushed(inner);
            let s3 = s2.released(inner_id);
            &&& forall|i: int, j: int|
                0 <= i < s2.restored_by(inner_id).len() && 0 <= j < outer.len()
                    ==> (#[trigger] s2.restored_by(inner_id)[i]).key != (#[trigger] outer[j]).key
            &&& s3.layers.len() == 1
            &&& s3.restored_by(outer_id) == outer
            &&& s3.released(outer_id).layers.len() == 0
        }),
{
    let outer_id = st.next_id;
    let s1 = st.pushed(outer);
    let inner_id = s1.next_id;
    let s2 = s1.pushed(inner);
    assert(inner_id == outer_id + 1);
    assert(layer_position(s2.layers, inner_id, 1));
    assert(has_layer(s2.layers, inner_id));
    let p = s2.position(inner_id);
    assert(p == 1) by {
        if p == 0 {
            assert(s2.layers[0].id == outer_id);
        }
    }
    let s3 = s2.released(inner_id);
    assert(s3.layers =~= seq![LayerView { id: outer_id, hidden: outer }]);
    lemma_unmasked_not_masked(s3.layers, inner);
    assert forall|i: int, j: int|
        0 <= i < s2.restored_by(inner_id).len() && 0 <= j < outer.len() implies (#[trigger] s2.restored_by(inner_id)[i]).key
        != (#[trigger] outer[j]).key by {
        let h = s2.restored_by(inner_id)[i];
        assert(!masked_by(s3.layers, h.key));
        assert(s3.layers[0].hidden[j] == outer[j]);
    }
    assert(layer_position(s3.layers, outer_id, 0));
    assert(has_layer(s3.layers, outer_id));
    let q = s3.position(outer_id);
    assert(q == 0);
    assert(s3.released(outer_id).layers =~= Seq::<LayerView<R>>::empty());
    lemma_unmasked_without_layers(s3.released(outer_id).layers, outer);
}

proof fn lemma_unmasked_not_masked<R>(layers: Seq<LayerView<R>>, hidden: Seq<HiddenElement<R>>)
    ensures
        forall|i: int| 0 <= i < unmasked(layers, hidden).len() ==> !masked_by(layers, (#[trigger] unmasked(layers, hidden)[i]).key),
    decreases hidden.len(),
{
    if hidden.len() > 0 {
        lemma_unmasked_not_masked(layers, hidden.drop_last());
        let u = unmasked(layers, hidden.drop_last());
        assert forall|i: int| 0 <= i < unmasked(layers, hidden).len() implies !masked_by(
            layers,
            (#[trigger] unmasked(layers, hidden)[i]).key,
        ) by {
            if i < u.len() {
                assert(unmasked(layers, hidden)[i] == u[i]);
            }
        }
    }
}

proof fn lemma_unmasked_without_layers<R>(layers: Seq<LayerView<R>>, hidden: Seq<HiddenElement<R>>)
    requires
        layers.len() == 0,
    ensures
        unmasked(layers, hidden) == hidden,
    decreases hidden.len(),
{
    if hidden.len() > 0 {
        lemma_unmasked_without_layers(layers, hidden.drop_last());
        assert(hidden.drop_last().push(hidden.last()) =~= hidden);
    }
}

} // verus!
