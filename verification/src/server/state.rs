//! The catalogue of exported images that the connections of a server share.

use crate::driver::{
    law_parse_accepts_canonical_texts, lemma_full_name_slash, Driver, DriverImpl, ImageDesc,
    ImageDescView,
};
use crate::error::ErrorKind;
use vstd::prelude::*;
use vstd::utf8::encode_utf8;

verus! {

/// The longest canonical name, in bytes, that can be listed: with the eight
/// bytes that frame it in a list reply it still fits a reply's payload and a
/// single buffer on every machine.
pub const MAX_LISTED_NAME_LEN: usize = 0x7fff_fff7;

/// One exported image: the name of its driver and its descriptor.
pub type Listed = (Seq<char>, ImageDescView);

/// The images of one driver: the driver's name and the descriptors, in the
/// order in which they were added.
pub type Group = (Seq<char>, Seq<ImageDescView>);

/// The images of a group, each paired with the group's driver.
pub open spec fn pairs(group: Group) -> Seq<Listed> {
    Seq::new(group.1.len(), |i: int| (group.0, group.1[i]))
}

/// The images of all groups, group after group.
pub open spec fn flatten(groups: Seq<Group>) -> Seq<Listed>
    decreases groups.len(),
{
    if groups.len() == 0 {
        Seq::empty()
    } else {
        flatten(groups.drop_last()) + pairs(groups.last())
    }
}

/// `text` is the canonical name of the well-formed descriptor `desc`.
pub open spec fn names_image(text: Seq<char>, desc: ImageDescView) -> bool {
    desc.well_formed() && desc.full_name() == text
}

/// `at` is the first position in `listing` of an image that `text` names.
pub open spec fn first_named(listing: Seq<Listed>, text: Seq<char>, at: int) -> bool {
    &&& 0 <= at < listing.len()
    &&& names_image(text, listing[at].1)
    &&& forall|j: int| 0 <= j < at ==> !names_image(text, (#[trigger] listing[j]).1)
}

/// What a [`ServerState`] holds.
pub struct ServerStateView {
    /// The name of the default driver, if one is set.
    pub default_driver: Option<Seq<char>>,
    /// The groups, in the order in which their drivers first appeared.
    pub images: Seq<Group>,
}

impl ServerStateView {
    /// No driver has two groups, and every canonical name can be listed.
    /// Every catalogue is well-formed.
    pub open spec fn well_formed(self) -> bool {
        &&& forall|i: int, j: int|
            0 <= i < j < self.images.len() ==> (#[trigger] self.images[i]).0 != (
            #[trigger] self.images[j]).0
        &&& forall|i: int, k: int|
            0 <= i < self.images.len() && 0 <= k < self.images[i].1.len() ==> encode_utf8(
                (#[trigger] self.images[i].1[k]).full_name(),
            ).len() <= MAX_LISTED_NAME_LEN
    }

    /// All exported images, group after group.
    pub open spec fn listing(self) -> Seq<Listed> {
        flatten(self.images)
    }

    /// The position of the group of `driver`, or the number of groups if
    /// the driver has none.
    pub open spec fn group_of(self, driver: Seq<char>) -> int {
        if exists|i: int| 0 <= i < self.images.len() && self.images[i].0 == driver {
            choose|i: int| 0 <= i < self.images.len() && self.images[i].0 == driver
        } else {
            self.images.len() as int
        }
    }

    /// `group` is the first group that holds `desc`, and `at` the first
    /// place in it where `desc` stands.
    pub open spec fn first_place(self, desc: ImageDescView, group: int, at: int) -> bool {
        &&& 0 <= group < self.images.len()
        &&& 0 <= at < self.images[group].1.len()
        &&& self.images[group].1[at] == desc
        &&& forall|k: int| 0 <= k < at ==> self.images[group].1[k] != desc
        &&& forall|g: int| 0 <= g < group ==> !(#[trigger] self.images[g]).1.contains(desc)
    }

    /// This catalogue without the image at place `at` of group `group`. The
    /// group stays, even when it is left without images.
    pub open spec fn without_image(self, group: int, at: int) -> Self {
        ServerStateView {
            images: self.images.update(
                group,
                (self.images[group].0, self.images[group].1.remove(at)),
            ),
            ..self
        }
    }

    /// This catalogue with one more image: at the end of its driver's
    /// group, or in a new last group if the driver had none.
    pub open spec fn with_image(self, driver: Seq<char>, desc: ImageDescView) -> Self {
        let at = self.group_of(driver);
        if at < self.images.len() {
            ServerStateView {
                images: self.images.update(at, (driver, self.images[at].1.push(desc))),
                ..self
            }
        } else {
            ServerStateView { images: self.images.push((driver, seq![desc])), ..self }
        }
    }
}

/// Two well-formed descriptors with the same canonical name are the same.
pub proof fn lemma_full_name_injective(a: ImageDescView, b: ImageDescView)
    requires
        a.well_formed(),
        b.well_formed(),
        a.full_name() == b.full_name(),
    ensures
        a == b,
{
    let s = a.full_name();
    lemma_full_name_slash(s);
    assert(s == a.full_name());
    assert(s == b.full_name());
    let at = a.name.len() as int;
    assert(b.name.len() == at);
    assert(a.name =~= s.subrange(0, at));
    assert(b.name =~= s.subrange(0, at));
    assert(a.driver_name =~= s.subrange(at + 1, s.len() as int));
    assert(b.driver_name =~= s.subrange(at + 1, s.len() as int));
}

/// The catalogue of exported images, grouped by driver, and the default
/// driver.
pub struct ServerState<D: DriverImpl> {
    default_driver: Option<Driver<D>>,
    images: Vec<(Driver<D>, Vec<ImageDesc>)>,
}

impl<D: DriverImpl> Default for ServerState<D> {
    /// The catalogue without images and without a default driver.
    fn default() -> (r: Self)
        ensures
            r@.default_driver is None,
            r@.images.len() == 0,
    {
        Self::new()
    }
}

impl<D: DriverImpl> ServerState<D> {
    #[verifier::type_invariant]
    spec fn inv(self) -> bool {
        Self::sound(self.images@)
    }

    /// No driver has two groups, and every canonical name can be listed.
    spec fn sound(images: Seq<(Driver<D>, Vec<ImageDesc>)>) -> bool {
        &&& forall|i: int, j: int|
            0 <= i < j < images.len() ==> (#[trigger] images[i]).0.spec_name() != (
            #[trigger] images[j]).0.spec_name()
        &&& forall|i: int, k: int|
            0 <= i < images.len() && 0 <= k < images[i].1@.len() ==> encode_utf8(
                (#[trigger] images[i].1@[k])@.full_name(),
            ).len() <= MAX_LISTED_NAME_LEN
    }

    spec fn descs(v: Seq<ImageDesc>) -> Seq<ImageDescView> {
        Seq::new(v.len(), |k: int| v[k]@)
    }

    spec fn groups(images: Seq<(Driver<D>, Vec<ImageDesc>)>) -> Seq<Group> {
        Seq::new(images.len(), |i: int| (images[i].0.spec_name(), Self::descs(images[i].1@)))
    }

    /// What the catalogue holds.
    pub closed spec fn view(&self) -> ServerStateView {
        ServerStateView {
            default_driver: match self.default_driver {
                Some(d) => Some(d.spec_name()),
                None => None,
            },
            images: Self::groups(self.images@),
        }
    }

    /// What a list of handles and descriptors says.
    pub open spec fn listed(list: Seq<(Driver<D>, ImageDesc)>) -> Seq<Listed> {
        Seq::new(list.len(), |i: int| (list[i].0.spec_name(), list[i].1@))
    }

    /// The catalogue without images and without a default driver.
    pub fn new() -> (r: Self)
        ensures
            r@.default_driver is None,
            r@.images.len() == 0,
    {
        ServerState { default_driver: None, images: Vec::new() }
    }

    /// Sets or clears the default driver.
    pub fn set_default_driver(&mut self, driver: Option<Driver<D>>)
        ensures
            final(self)@.images == old(self)@.images,
            final(self)@.default_driver == match driver {
                Some(d) => Some(d.spec_name()),
                None => None,
            },
    {
        proof {
            use_type_invariant(&*self);
        }
        self.default_driver = driver;
    }

    /// The default driver, if one is set.
    pub fn default_driver(&self) -> (r: Option<&Driver<D>>)
        ensures
            match r {
                Some(d) => self@.default_driver == Some(d.spec_name()),
                None => self@.default_driver is None,
            },
    {
        self.default_driver.as_ref()
    }

    /// The position of the group of `driver`, or the number of groups if the
    /// driver has none.
    fn group_position(images: &Vec<(Driver<D>, Vec<ImageDesc>)>, driver: &Driver<D>) -> (at: usize)
        ensures
            at <= images@.len(),
            at < images@.len() ==> images@[at as int].0.spec_name() == driver.spec_name(),
            forall|j: int|
                0 <= j < at ==> (#[trigger] images@[j]).0.spec_name() != driver.spec_name(),
    {
        let mut at: usize = 0;
        while at < images.len()
            invariant
                at <= images.len(),
                forall|j: int|
                    0 <= j < at ==> (#[trigger] images@[j]).0.spec_name() != driver.spec_name(),
            decreases images.len() - at,
        {
            if images[at].0 == *driver {
                return at;
            }
            at += 1;
        }
        at
    }

    /// Adds an image to the group of `driver`, or opens a group for it. An
    /// image whose canonical name is too long to be listed is refused, and
    /// the catalogue stays as it is.
    pub fn add_image(&mut self, driver: Driver<D>, desc: ImageDesc) -> (r: Result<(), ErrorKind>)
        ensures
            match r {
                Ok(_) => encode_utf8(desc@.full_name()).len() <= MAX_LISTED_NAME_LEN
                    && final(self)@ == old(self)@.with_image(driver.spec_name(), desc@),
                Err(e) => e == ErrorKind::InvalidInput && encode_utf8(desc@.full_name()).len()
                    > MAX_LISTED_NAME_LEN && final(self)@ == old(self)@,
            },
    {
        proof {
            use_type_invariant(&*self);
        }
        let full = desc.full_name();
        if full.as_str().as_bytes().len() > MAX_LISTED_NAME_LEN {
            return Err(ErrorKind::InvalidInput);
        }
        let ghost before = self.images@;
        let ghost name = driver.spec_name();
        let mut images: Vec<(Driver<D>, Vec<ImageDesc>)> = Vec::new();
        core::mem::swap(&mut images, &mut self.images);
        let at = Self::group_position(&images, &driver);
        if at < images.len() {
            let mut group = images.remove(at);
            group.1.push(desc);
            images.insert(at, group);
            proof {
                let i = at as int;
                assert(old(self)@.group_of(name) == i) by {
                    assert(Self::groups(before)[i].0 == name);
                    let c = old(self)@.group_of(name);
                    assert(Self::groups(before)[c].0 == before[c].0.spec_name());
                }
                assert(images@.len() == before.len());
                assert(images@[i].0 == before[i].0);
                assert(images@[i].1@ == before[i].1@.push(desc));
                assert forall|j: int| 0 <= j < before.len() && j != i implies images@[j]
                    == before[j] by {}
                assert(Self::descs(images@[i].1@) =~= Self::descs(before[i].1@).push(desc@));
                assert(Self::groups(images@) =~= Self::groups(before).update(
                    i,
                    (name, Self::groups(before)[i].1.push(desc@)),
                ));
                assert(Self::sound(images@)) by {
                    assert forall|a: int, b: int| 0 <= a < b < images@.len() implies (
                    #[trigger] images@[a]).0.spec_name() != (#[trigger] images@[b]).0.spec_name() by {
                        assert(images@[a].0 == before[a].0);
                        assert(images@[b].0 == before[b].0);
                    }
                    assert forall|a: int, k: int|
                        0 <= a < images@.len() && 0 <= k < images@[a].1@.len() implies encode_utf8(
                        (#[trigger] images@[a].1@[k])@.full_name(),
                    ).len() <= MAX_LISTED_NAME_LEN by {
                        if a == i {
                            if k < before[i].1@.len() {
                                assert(images@[a].1@[k] == before[i].1@[k]);
                            }
                        } else {
                            assert(images@[a] == before[a]);
                        }
                    }
                }
            }
        } else {
            let mut descs: Vec<ImageDesc> = Vec::new();
            descs.push(desc);
            images.push((driver, descs));
            proof {
                assert(old(self)@.group_of(name) == before.len()) by {
                    if exists|i: int|
                        0 <= i < old(self)@.images.len() && old(self)@.images[i].0 == name {
                        let i = choose|i: int|
                            0 <= i < old(self)@.images.len() && old(self)@.images[i].0 == name;
                        assert(before[i].0.spec_name() == name);
                    }
                }
                assert(Self::descs(descs@) =~= seq![desc@]);
                assert(Self::groups(images@) =~= Self::groups(before).push((name, seq![desc@])));
                assert(Self::sound(images@)) by {
                    assert forall|a: int, b: int| 0 <= a < b < images@.len() implies (
                    #[trigger] images@[a]).0.spec_name() != (#[trigger] images@[b]).0.spec_name() by {
                        assert(images@[a] == before[a]);
                        if b < before.len() {
                            assert(images@[b] == before[b]);
                        }
                    }
                    assert forall|a: int, k: int|
                        0 <= a < images@.len() && 0 <= k < images@[a].1@.len() implies encode_utf8(
                        (#[trigger] images@[a].1@[k])@.full_name(),
                    ).len() <= MAX_LISTED_NAME_LEN by {
                        if a < before.len() {
                            assert(images@[a] == before[a]);
                        }
                    }
                }
            }
        }
        self.images = images;
        Ok(())
    }

    /// The first place of `desc` in the group `descs`, or the length of the
    /// group if it is not there.
    fn place_in_group(descs: &Vec<ImageDesc>, desc: &ImageDesc) -> (at: usize)
        ensures
            at <= descs@.len(),
            at < descs@.len() ==> descs@[at as int]@ == desc@,
            forall|k: int| 0 <= k < at ==> (#[trigger] descs@[k])@ != desc@,
    {
        let mut at: usize = 0;
        while at < descs.len()
            invariant
                at <= descs.len(),
                forall|k: int| 0 <= k < at ==> (#[trigger] descs@[k])@ != desc@,
            decreases descs.len() - at,
        {
            if descs[at] == *desc {
                return at;
            }
            at += 1;
        }
        at
    }

    /// The first group that holds `desc` and the first place of `desc` in
    /// it, if a group holds it.
    fn place(images: &Vec<(Driver<D>, Vec<ImageDesc>)>, desc: &ImageDesc) -> (r: Option<
        (usize, usize),
    >)
        ensures
            match r {
                Some((group, at)) => {
                    &&& group < images@.len()
                    &&& at < images@[group as int].1@.len()
                    &&& images@[group as int].1@[at as int]@ == desc@
                    &&& forall|k: int|
                        0 <= k < at ==> (#[trigger] images@[group as int].1@[k])@ != desc@
                    &&& forall|g: int, k: int|
                        0 <= g < group && 0 <= k < images@[g].1@.len() ==> (
                        #[trigger] images@[g].1@[k])@ != desc@
                },
                None => forall|g: int, k: int|
                    0 <= g < images@.len() && 0 <= k < images@[g].1@.len() ==> (
                    #[trigger] images@[g].1@[k])@ != desc@,
            },
    {
        let mut group: usize = 0;
        while group < images.len()
            invariant
                group <= images.len(),
                forall|g: int, k: int|
                    0 <= g < group && 0 <= k < images@[g].1@.len() ==> (
                    #[trigger] images@[g].1@[k])@ != desc@,
            decreases images.len() - group,
        {
            let at = Self::place_in_group(&images[group].1, desc);
            if at < images[group].1.len() {
                return Some((group, at));
            }
            group += 1;
        }
        None
    }

    /// Removes the first image with the descriptor `desc` and hands it back
    /// with a handle to its driver. Where no image has that descriptor the
    /// catalogue stays as it is.
    pub fn remove_image(&mut self, desc: &ImageDesc) -> (r: Option<(Driver<D>, ImageDesc)>)
        ensures
            match r {
                Some((driver, removed)) => exists|group: int, at: int|
                    {
                        &&& #[trigger] old(self)@.first_place(desc@, group, at)
                        &&& final(self)@ == old(self)@.without_image(group, at)
                        &&& driver.spec_name() == old(self)@.images[group].0
                        &&& removed@ == desc@
                    },
                None => final(self)@ == old(self)@ && forall|g: int|
                    0 <= g < old(self)@.images.len() ==> !(#[trigger] old(self)@.images[g]).1.contains(
                        desc@,
                    ),
            },
    {
        proof {
            use_type_invariant(&*self);
        }
        let ghost before = self.images@;
        let ghost view = self@;
        match Self::place(&self.images, desc) {
            None => {
                assert forall|g: int| 0 <= g < view.images.len() implies !(
                #[trigger] view.images[g]).1.contains(desc@) by {
                    if view.images[g].1.contains(desc@) {
                        let k = choose|k: int|
                            0 <= k < view.images[g].1.len() && view.images[g].1[k] == desc@;
                        assert(before[g].1@[k]@ == desc@);
                    }
                }
                None
            },
            Some((group, at)) => {
                let mut images: Vec<(Driver<D>, Vec<ImageDesc>)> = Vec::new();
                core::mem::swap(&mut images, &mut self.images);
                let mut entry = images.remove(group);
                let removed = entry.1.remove(at);
                let driver = entry.0.clone();
                images.insert(group, entry);
                proof {
                    let g = group as int;
                    let a = at as int;
                    assert(view.first_place(desc@, g, a)) by {
                        assert(view.images[g].1[a] == before[g].1@[a]@);
                        assert forall|k: int| 0 <= k < a implies view.images[g].1[k] != desc@ by {
                            assert(view.images[g].1[k] == before[g].1@[k]@);
                        }
                        assert forall|h: int| 0 <= h < g implies !(
                        #[trigger] view.images[h]).1.contains(desc@) by {
                            if view.images[h].1.contains(desc@) {
                                let k = choose|k: int|
                                    0 <= k < view.images[h].1.len() && view.images[h].1[k]
                                        == desc@;
                                assert(before[h].1@[k]@ == desc@);
                            }
                        }
                    }
                    assert(images@.len() == before.len());
                    assert(images@[g].0 == before[g].0);
                    assert(images@[g].1@ == before[g].1@.remove(a));
                    assert forall|j: int| 0 <= j < before.len() && j != g implies images@[j]
                        == before[j] by {}
                    assert(Self::descs(images@[g].1@) =~= Self::descs(before[g].1@).remove(a));
                    assert(Self::groups(images@) =~= view.images.update(
                        g,
                        (view.images[g].0, view.images[g].1.remove(a)),
                    ));
                    assert(Self::sound(images@)) by {
                        assert forall|x: int, y: int| 0 <= x < y < images@.len() implies (
                        #[trigger] images@[x]).0.spec_name() != (
                        #[trigger] images@[y]).0.spec_name() by {
                            assert(images@[x].0 == before[x].0);
                            assert(images@[y].0 == before[y].0);
                        }
                        assert forall|x: int, k: int|
                            0 <= x < images@.len() && 0 <= k < images@[x].1@.len() implies encode_utf8(
                            (#[trigger] images@[x].1@[k])@.full_name(),
                        ).len() <= MAX_LISTED_NAME_LEN by {
                            if x == g {
                                if k < a {
                                    assert(images@[x].1@[k] == before[g].1@[k]);
                                } else {
                                    assert(images@[x].1@[k] == before[g].1@[k + 1]);
                                }
                            } else {
                                assert(images@[x] == before[x]);
                            }
                        }
                    }
                }
                self.images = images;
                Some((driver, removed))
            },
        }
    }

    /// All exported images, each with a handle to its driver, group after
    /// group.
    pub fn list_images(&self) -> (r: Vec<(Driver<D>, ImageDesc)>)
        ensures
            Self::listed(r@) == self@.listing(),
            self@.well_formed(),
    {
        proof {
            use_type_invariant(self);
            let images = self.images@;
            assert forall|i: int, j: int| 0 <= i < j < self@.images.len() implies (
            #[trigger] self@.images[i]).0 != (#[trigger] self@.images[j]).0 by {
                assert(images[i].0.spec_name() != images[j].0.spec_name());
            }
            assert forall|i: int, k: int|
                0 <= i < self@.images.len() && 0 <= k < self@.images[i].1.len() implies encode_utf8(
                (#[trigger] self@.images[i].1[k]).full_name(),
            ).len() <= MAX_LISTED_NAME_LEN by {
                assert(self@.images[i].1[k] == images[i].1@[k]@);
            }
        }
        let ghost groups = self@.images;
        let mut out: Vec<(Driver<D>, ImageDesc)> = Vec::new();
        let mut g: usize = 0;
        assert(groups.take(0) =~= Seq::<Group>::empty());
        while g < self.images.len()
            invariant
                g <= self.images.len(),
                groups == self@.images,
                Self::listed(out@) == flatten(groups.take(g as int)),
            decreases self.images.len() - g,
        {
            let driver = &self.images[g].0;
            let descs = &self.images[g].1;
            let mut k: usize = 0;
            assert(pairs(groups[g as int]).take(0) =~= Seq::<Listed>::empty());
            while k < descs.len()
                invariant
                    g < self.images.len(),
                    groups == self@.images,
                    k <= descs.len(),
                    driver == &self.images@[g as int].0,
                    descs == &self.images@[g as int].1,
                    Self::listed(out@) == flatten(groups.take(g as int)) + pairs(
                        groups[g as int],
                    ).take(k as int),
                decreases descs.len() - k,
            {
                let ghost before = out@;
                out.push((driver.clone(), descs[k].clone()));
                k += 1;
                assert(Self::listed(out@) =~= Self::listed(before).push(
                    pairs(groups[g as int])[k - 1],
                ));
                assert(pairs(groups[g as int]).take(k as int) =~= pairs(groups[g as int]).take(
                    k - 1,
                ).push(pairs(groups[g as int])[k - 1]));
            }
            proof {
                let upto = groups.take(g + 1);
                assert(upto.drop_last() =~= groups.take(g as int));
                assert(upto.last() == groups[g as int]);
                assert(pairs(groups[g as int]).take(descs.len() as int) =~= pairs(
                    groups[g as int],
                ));
            }
            g += 1;
        }
        assert(groups.take(g as int) =~= groups);
        out
    }

    /// The canonical names of all exported images, in the order of
    /// [`list_images`](Self::list_images). Each of them can be listed.
    pub fn list_images_full_name(&self) -> (r: Vec<String>)
        ensures
            r@.len() == self@.listing().len(),
            forall|i: int| 0 <= i < r@.len() ==> (#[trigger] r@[i])@ == self@.listing()[i].1.full_name(),
            forall|i: int| 0 <= i < r@.len() ==> encode_utf8((#[trigger] r@[i])@).len()
                <= MAX_LISTED_NAME_LEN,
    {
        let list = self.list_images();
        proof {
            use_type_invariant(self);
            Self::lemma_listing_bounded(self.images@);
        }
        let mut names: Vec<String> = Vec::new();
        let mut i: usize = 0;
        while i < list.len()
            invariant
                i <= list.len(),
                names@.len() == i,
                Self::listed(list@) == self@.listing(),
                forall|j: int| 0 <= j < i ==> (#[trigger] names@[j])@ == self@.listing()[j].1.full_name(),
            decreases list.len() - i,
        {
            assert(Self::listed(list@)[i as int].1 == list@[i as int].1@);
            names.push(list[i].1.full_name());
            i += 1;
        }
        names
    }

    /// Every listed image has a canonical name that can be listed.
    proof fn lemma_listing_bounded(images: Seq<(Driver<D>, Vec<ImageDesc>)>)
        requires
            Self::sound(images),
        ensures
            forall|i: int|
                0 <= i < flatten(Self::groups(images)).len() ==> encode_utf8(
                    (#[trigger] flatten(Self::groups(images))[i]).1.full_name(),
                ).len() <= MAX_LISTED_NAME_LEN,
        decreases images.len(),
    {
        let groups = Self::groups(images);
        if images.len() > 0 {
            let rest = images.drop_last();
            assert(Self::sound(rest)) by {
                assert forall|i: int, j: int| 0 <= i < j < rest.len() implies (#[trigger] rest[i]).0.spec_name()
                    != (#[trigger] rest[j]).0.spec_name() by {
                    assert(rest[i] == images[i]);
                    assert(rest[j] == images[j]);
                }
                assert forall|i: int, k: int|
                    0 <= i < rest.len() && 0 <= k < rest[i].1@.len() implies encode_utf8(
                    (#[trigger] rest[i].1@[k])@.full_name(),
                ).len() <= MAX_LISTED_NAME_LEN by {
                    assert(rest[i] == images[i]);
                }
            }
            Self::lemma_listing_bounded(rest);
            assert(Self::groups(rest) =~= groups.drop_last());
            let last = images.len() - 1;
            assert forall|i: int| 0 <= i < flatten(groups).len() implies encode_utf8(
                (#[trigger] flatten(groups)[i]).1.full_name(),
            ).len() <= MAX_LISTED_NAME_LEN by {
                let head = flatten(groups.drop_last());
                if i >= head.len() {
                    let k = i - head.len();
                    assert(flatten(groups)[i] == pairs(groups.last())[k]);
                    assert(groups.last().1[k] == images[last].1@[k]@);
                }
            }
        }
    }

    /// The first exported image that `name` names, with a handle to its
    /// driver; nothing if `name` names none.
    pub fn find_image(&self, name: &str) -> (r: Option<(Driver<D>, ImageDesc)>)
        ensures
            match r {
                Some((driver, desc)) => exists|at: int|
                    first_named(self@.listing(), name@, at) && (driver.spec_name(), desc@)
                        == #[trigger] self@.listing()[at],
                None => forall|at: int|
                    0 <= at < self@.listing().len() ==> !names_image(
                        name@,
                        (#[trigger] self@.listing()[at]).1,
                    ),
            },
    {
        let wanted = match ImageDesc::parse(name) {
            Ok(d) => d,
            Err(_) => {
                proof {
                    lemma_full_name_slash(name@);
                }
                return None;
            },
        };
        proof {
            law_parse_accepts_canonical_texts(name@);
        }
        let list = self.list_images();
        let ghost listing = self@.listing();
        let mut i: usize = 0;
        while i < list.len()
            invariant
                i <= list.len(),
                Self::listed(list@) == listing,
                listing == self@.listing(),
                wanted@.well_formed(),
                wanted@.full_name() == name@,
                forall|j: int| 0 <= j < i ==> !names_image(name@, (#[trigger] listing[j]).1),
            decreases list.len() - i,
        {
            assert(listing[i as int] == (list@[i as int].0.spec_name(), list@[i as int].1@));
            if list[i].1 == wanted {
                let found = (list[i].0.clone(), list[i].1.clone());
                proof {
                    assert(list@[i as int].1@ == wanted@);
                    assert(names_image(name@, listing[i as int].1));
                    assert(first_named(listing, name@, i as int));
                    assert((found.0.spec_name(), found.1@) == self@.listing()[i as int]);
                }
                return Some(found);
            }
            proof {
                if names_image(name@, listing[i as int].1) {
                    lemma_full_name_injective(listing[i as int].1, wanted@);
                }
            }
            i += 1;
        }
        None
    }
}

} // verus!
