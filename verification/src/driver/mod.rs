//! Image descriptors, drivers and the registry of driver factories.

pub mod config;
pub mod fs;

pub use config::DriverConfig;

use crate::driver::fs::{fs_name, init_driver, FsDriver, FsDriverConstructor};
use crate::error::ErrorKind;
use crate::text::str_split_once;
use vstd::prelude::*;
use vstd::string::StringExecFns;

verus! {

/// What an [`ImageDesc`] says: two pieces of text.
pub struct ImageDescView {
    pub driver_name: Seq<char>,
    pub name: Seq<char>,
}

impl ImageDescView {
    /// The canonical text: the image's name, a slash, the driver's name.
    pub open spec fn full_name(self) -> Seq<char> {
        self.name + seq!['/'] + self.driver_name
    }

    /// Both names are non-empty and hold no slash, so that the canonical text
    /// can be taken apart again.
    pub open spec fn well_formed(self) -> bool {
        &&& self.name.len() > 0
        &&& self.driver_name.len() > 0
        &&& !self.name.contains('/')
        &&& !self.driver_name.contains('/')
    }
}

/// `s` holds exactly one slash, at `at`, with text on both sides of it.
pub open spec fn single_slash_at(s: Seq<char>, at: int) -> bool {
    &&& 0 < at < s.len() - 1
    &&& s[at] == '/'
    &&& forall|j: int| 0 <= j < s.len() && j != at ==> s[j] != '/'
}

/// Names an image and the driver that serves it.
#[derive(Debug)]
pub struct ImageDesc {
    pub driver_name: String,
    pub name: String,
}

impl View for ImageDesc {
    type V = ImageDescView;

    open spec fn view(&self) -> ImageDescView {
        ImageDescView { driver_name: self.driver_name@, name: self.name@ }
    }
}

impl Clone for ImageDesc {
    fn clone(&self) -> (r: Self)
        ensures
            r@ == self@,
    {
        ImageDesc { driver_name: self.driver_name.clone(), name: self.name.clone() }
    }
}

impl PartialEq for ImageDesc {
    fn eq(&self, other: &Self) -> (r: bool) {
        self.driver_name == other.driver_name && self.name == other.name
    }
}

impl Eq for ImageDesc {

}

impl vstd::std_specs::cmp::PartialEqSpecImpl for ImageDesc {
    open spec fn obeys_eq_spec() -> bool {
        true
    }

    open spec fn eq_spec(&self, other: &Self) -> bool {
        self.driver_name@ == other.driver_name@ && self.name@ == other.name@
    }
}

impl ImageDesc {
    /// The canonical text of this descriptor.
    pub fn full_name(&self) -> (r: String)
        ensures
            r@ == self@.full_name(),
    {
        let mut r = self.name.clone();
        r.append("/");
        r.append(self.driver_name.as_str());
        proof {
            reveal_strlit("/");
            assert("/"@ =~= seq!['/']);
        }
        r
    }

    /// What [`parse`](Self::parse) makes of a text: if the text holds
    /// exactly one slash, with text on both sides of it, the descriptor of
    /// the image named before the slash and the driver named after it;
    /// else nothing.
    pub open spec fn spec_parse(s: Seq<char>) -> Result<ImageDescView, ErrorKind> {
        if exists|at: int| single_slash_at(s, at) {
            let at = choose|at: int| single_slash_at(s, at);
            Ok(
                ImageDescView {
                    name: s.subrange(0, at),
                    driver_name: s.subrange(at + 1, s.len() as int),
                },
            )
        } else {
            Err(ErrorKind::InvalidData)
        }
    }

    /// Takes a canonical text apart.
    pub fn parse(s: &str) -> (r: Result<ImageDesc, ErrorKind>)
        ensures
            Self::spec_parse(s@) == match r {
                Ok(d) => Ok::<ImageDescView, ErrorKind>(d@),
                Err(e) => Err(e),
            },
    {
        match str_split_once(s, '/') {
            None => {
                assert forall|at: int| !single_slash_at(s@, at) by {
                    if single_slash_at(s@, at) {
                        assert(s@.contains(s@[at]));
                    }
                }
                Err(ErrorKind::InvalidData)
            },
            Some((name, driver_name)) => {
                let more = str_split_once(driver_name, '/');
                let ghost slash = name@.len() as int;
                assert(s@[slash] == '/');
                if name.is_empty() || driver_name.is_empty() || more.is_some() {
                    assert forall|at: int| !single_slash_at(s@, at) by {
                        if single_slash_at(s@, at) {
                            assert(at == slash);
                            if more.is_some() {
                                let (a, b) = more.unwrap();
                                let second = slash + 1 + a@.len();
                                assert(driver_name@[a@.len() as int] == '/');
                                assert(s@[second] == '/');
                            }
                        }
                    }
                    Err(ErrorKind::InvalidData)
                } else {
                    proof {
                        assert(single_slash_at(s@, slash)) by {
                            assert forall|j: int| 0 <= j < s@.len() && j != slash implies s@[j]
                                != '/' by {
                                if j < slash {
                                    assert(name@.contains(name@[j]));
                                } else {
                                    assert(driver_name@.contains(driver_name@[j - slash - 1]));
                                }
                            }
                        }
                        let at = choose|at: int| single_slash_at(s@, at);
                        assert(at == slash);
                        assert(name@ =~= s@.subrange(0, at));
                        assert(driver_name@ =~= s@.subrange(at + 1, s@.len() as int));
                    }
                    Ok(ImageDesc { driver_name: driver_name.to_owned(), name: name.to_owned() })
                }
            },
        }
    }
}

impl std::str::FromStr for ImageDesc {
    type Err = ErrorKind;

    /// The same as [`ImageDesc::parse`].
    fn from_str(s: &str) -> (r: Result<Self, Self::Err>)
        ensures
            ImageDesc::spec_parse(s@) == match r {
                Ok(d) => Ok::<ImageDescView, ErrorKind>(d@),
                Err(e) => Err(e),
            },
    {
        ImageDesc::parse(s)
    }
}

/// In the canonical text of a well-formed descriptor the slash between the
/// names is the only one, and text stands on both sides of it.
pub proof fn lemma_full_name_slash(s: Seq<char>)
    ensures
        forall|v: ImageDescView|
            v.well_formed() && s == #[trigger] v.full_name() ==> single_slash_at(
                s,
                v.name.len() as int,
            ),
{
    assert forall|v: ImageDescView| v.well_formed() && s == #[trigger] v.full_name() implies single_slash_at(
        s,
        v.name.len() as int,
    ) by {
        let at = v.name.len() as int;
        assert forall|j: int| 0 <= j < s.len() && j != at implies s[j] != '/' by {
            if j < at {
                assert(s[j] == v.name[j]);
                assert(v.name.contains(v.name[j]));
            } else {
                assert(s[j] == v.driver_name[j - at - 1]);
                assert(v.driver_name.contains(v.driver_name[j - at - 1]));
            }
        }
    }
}

/// Taking apart the canonical text of a well-formed descriptor gives the
/// descriptor back.
pub proof fn law_parse_inverts_full_name(d: ImageDescView)
    requires
        d.well_formed(),
    ensures
        ImageDesc::spec_parse(d.full_name()) == Ok::<ImageDescView, ErrorKind>(d),
{
    let s = d.full_name();
    lemma_full_name_slash(s);
    let slash = d.name.len() as int;
    assert(single_slash_at(s, slash));
    let at = choose|at: int| single_slash_at(s, at);
    assert(at == slash);
    assert(d.name =~= s.subrange(0, at));
    assert(d.driver_name =~= s.subrange(at + 1, s.len() as int));
}

/// A text can be taken apart exactly when it holds one slash with text on
/// both sides; what comes out is then well-formed and has the text as its
/// canonical text.
pub proof fn law_parse_accepts_canonical_texts(s: Seq<char>)
    ensures
        ImageDesc::spec_parse(s) is Ok <==> exists|at: int| single_slash_at(s, at),
        ImageDesc::spec_parse(s) matches Ok(d) ==> d.well_formed() && d.full_name() == s,
{
    if exists|at: int| single_slash_at(s, at) {
        let at = choose|at: int| single_slash_at(s, at);
        let d = ImageDesc::spec_parse(s)->Ok_0;
        assert(d.full_name() =~= s);
        assert(!d.name.contains('/')) by {
            if d.name.contains('/') {
                let j = choose|j: int| 0 <= j < d.name.len() && d.name[j] == '/';
                assert(s[j] == '/');
            }
        }
        assert(!d.driver_name.contains('/')) by {
            if d.driver_name.contains('/') {
                let j = choose|j: int| 0 <= j < d.driver_name.len() && d.driver_name[j] == '/';
                assert(s[at + 1 + j] == '/');
            }
        }
    }
}

/// What is known of an image without reading it.
#[derive(Debug, Clone, Copy, PartialEq, Eq, Structural)]
pub struct ImageInfo {
    /// Size in bytes.
    pub size: u64,
    /// Whether writes are refused.
    pub readonly: bool,
}

/// What a host's image offers to the library: its name, its description, and
/// a second handle to itself. Reading and writing blocks is input and output
/// and stays with the host.
///
/// The library asks each question once, when it wraps the image into a
/// handle, and goes by the answers it got.
pub trait ImageImpl: Send + Sync + Sized {
    /// The image's name.
    fn name(&self) -> &str;

    /// The image's size and whether it is read-only.
    fn info(&self) -> ImageInfo;

    /// Another handle to the same image.
    fn dup(&self) -> Self;
}

/// What a host's driver offers to the library: its name, and a second handle
/// to itself. Resolving and opening images is input and output and stays with
/// the host.
///
/// The library asks for the name once, when it wraps the driver into a
/// handle, and goes by the answer it got.
pub trait DriverImpl: Send + Sync + Sized {
    /// The driver's name.
    fn name(&self) -> &str;

    /// Another handle to the same driver.
    fn dup(&self) -> Self;
}

/// A factory of drivers.
pub trait DriverConstructor: Send + Sync + Sized {
    type Driver: DriverImpl;

    /// The name the factory wants to be registered under.
    fn name(&self) -> String;

    /// A driver made from `config`.
    fn construct(&self, config: &DriverConfig) -> Self::Driver;
}

/// A handle to a driver: the driver and the name it goes by. Two handles are
/// equal when their names are.
pub struct Driver<D: DriverImpl> {
    name: String,
    driver_impl: D,
}

impl<D: DriverImpl> Driver<D> {
    /// The driver behind the handle.
    pub closed spec fn spec_impl(&self) -> D {
        self.driver_impl
    }

    /// The name the handle goes by.
    pub closed spec fn spec_name(&self) -> Seq<char> {
        self.name@
    }

    /// `name` is an answer of `driver_impl` to the question for its name.
    pub open spec fn names_itself(driver_impl: D, name: Seq<char>) -> bool {
        exists|answer: &str| #[trigger] call_ensures(D::name, (&driver_impl,), answer) && answer@ == name
    }

    /// Wraps a driver into a handle that goes by the name the driver gives
    /// itself: the driver is asked once, and the handle keeps the answer.
    pub fn from_impl(driver_impl: D) -> (r: Self)
        ensures
            r.spec_impl() == driver_impl,
            Self::names_itself(driver_impl, r.spec_name()),
    {
        let name = driver_impl.name().to_owned();
        Self::named(name, driver_impl)
    }

    /// Wraps a driver into a handle that goes by `name`.
    pub fn named(name: String, driver_impl: D) -> (r: Self)
        ensures
            r.spec_name() == name@,
            r.spec_impl() == driver_impl,
    {
        Self { name, driver_impl }
    }

    /// The name the handle goes by.
    pub fn name(&self) -> (r: &str)
        ensures
            r@ == self.spec_name(),
    {
        self.name.as_str()
    }
}

impl<D: DriverImpl> std::ops::Deref for Driver<D> {
    type Target = D;

    /// The driver behind the handle.
    fn deref(&self) -> (r: &D)
        ensures
            *r == self.spec_impl(),
    {
        &self.driver_impl
    }
}

impl<D: DriverImpl> Clone for Driver<D> {
    /// A second handle of the same name, to what the driver hands out as its
    /// duplicate.
    fn clone(&self) -> (r: Self)
        ensures
            r.spec_name() == self.spec_name(),
            call_ensures(D::dup, (&self.spec_impl(),), r.spec_impl()),
    {
        Driver { name: self.name.clone(), driver_impl: self.driver_impl.dup() }
    }
}

impl<D: DriverImpl> PartialEq for Driver<D> {
    fn eq(&self, other: &Self) -> (r: bool) {
        self.name == other.name
    }
}

impl<D: DriverImpl> Eq for Driver<D> {

}

impl<D: DriverImpl> vstd::std_specs::cmp::PartialEqSpecImpl for Driver<D> {
    open spec fn obeys_eq_spec() -> bool {
        true
    }

    open spec fn eq_spec(&self, other: &Self) -> bool {
        self.spec_name() == other.spec_name()
    }
}

/// A handle to an open image: the image, its name and its description.
pub struct Image<I: ImageImpl> {
    name: String,
    info: ImageInfo,
    blkdev_impl: I,
}

impl<I: ImageImpl> Image<I> {
    /// The image behind the handle.
    pub closed spec fn spec_impl(&self) -> I {
        self.blkdev_impl
    }

    /// The name the handle goes by.
    pub closed spec fn spec_name(&self) -> Seq<char> {
        self.name@
    }

    /// The description the handle carries.
    pub closed spec fn spec_info(&self) -> ImageInfo {
        self.info
    }

    /// `name` is an answer of `blkdev_impl` to the question for its name.
    pub open spec fn names_itself(blkdev_impl: I, name: Seq<char>) -> bool {
        exists|answer: &str| #[trigger] call_ensures(I::name, (&blkdev_impl,), answer) && answer@ == name
    }

    /// `info` is an answer of `blkdev_impl` to the question for its
    /// description.
    pub open spec fn describes_itself(blkdev_impl: I, info: ImageInfo) -> bool {
        call_ensures(I::info, (&blkdev_impl,), info)
    }

    /// Wraps an image into a handle that carries the name and the
    /// description the image gives of itself: the image is asked once for
    /// each, and the handle keeps the answers.
    pub fn from_impl(blkdev_impl: I) -> (r: Self)
        ensures
            r.spec_impl() == blkdev_impl,
            Self::names_itself(blkdev_impl, r.spec_name()),
            Self::describes_itself(blkdev_impl, r.spec_info()),
    {
        let name = blkdev_impl.name().to_owned();
        let info = blkdev_impl.info();
        Self::described(name, info, blkdev_impl)
    }

    /// Wraps an image into a handle that carries `name` and `info`.
    pub fn described(name: String, info: ImageInfo, blkdev_impl: I) -> (r: Self)
        ensures
            r.spec_name() == name@,
            r.spec_info() == info,
            r.spec_impl() == blkdev_impl,
    {
        Self { name, info, blkdev_impl }
    }

    /// The name the handle goes by.
    pub fn name(&self) -> (r: &str)
        ensures
            r@ == self.spec_name(),
    {
        self.name.as_str()
    }

    /// The description the handle carries.
    pub fn info(&self) -> (r: ImageInfo)
        ensures
            r == self.spec_info(),
    {
        self.info
    }
}

impl<I: ImageImpl> std::ops::Deref for Image<I> {
    type Target = I;

    /// The image behind the handle.
    fn deref(&self) -> (r: &I)
        ensures
            *r == self.spec_impl(),
    {
        &self.blkdev_impl
    }
}

impl<I: ImageImpl> Clone for Image<I> {
    /// A second handle of the same name and description, to what the image
    /// hands out as its duplicate.
    fn clone(&self) -> (r: Self)
        ensures
            r.spec_name() == self.spec_name(),
            r.spec_info() == self.spec_info(),
            call_ensures(I::dup, (&self.spec_impl(),), r.spec_impl()),
    {
        Image { name: self.name.clone(), info: self.info, blkdev_impl: self.blkdev_impl.dup() }
    }
}

/// A driver the registry hands out: the built-in one, or one of the host's.
pub enum AnyDriver<D: DriverImpl> {
    Fs(FsDriver),
    Host(D),
}

impl<D: DriverImpl> DriverImpl for AnyDriver<D> {
    /// The name the driver gives itself; for the built-in driver, `fs`.
    fn name(&self) -> (r: &str)
        ensures
            match self {
                AnyDriver::Fs(_) => r@ == fs_name(),
                AnyDriver::Host(d) => call_ensures(D::name, (d,), r),
            },
    {
        match self {
            AnyDriver::Fs(d) => d.name(),
            AnyDriver::Host(d) => d.name(),
        }
    }

    /// A driver of the same kind: the built-in driver, or what the host's
    /// driver hands out as its duplicate.
    fn dup(&self) -> (r: Self)
        ensures
            match self {
                AnyDriver::Fs(_) => r is Fs,
                AnyDriver::Host(d) => r matches AnyDriver::Host(e) && call_ensures(
                    D::dup,
                    (d,),
                    e,
                ),
            },
    {
        match self {
            AnyDriver::Fs(d) => AnyDriver::Fs(d.dup()),
            AnyDriver::Host(d) => AnyDriver::Host(d.dup()),
        }
    }
}

/// A factory the registry holds: the built-in one, or one the host registered.
pub enum AnyConstructor<C: DriverConstructor> {
    Fs(FsDriverConstructor),
    Host(C),
}

impl<C: DriverConstructor> DriverConstructor for AnyConstructor<C> {
    type Driver = AnyDriver<C::Driver>;

    /// The name the factory gives itself; for the built-in factory, `fs`.
    fn name(&self) -> (r: String)
        ensures
            match self {
                AnyConstructor::Fs(_) => r@ == fs_name(),
                AnyConstructor::Host(c) => call_ensures(C::name, (c,), r),
            },
    {
        match self {
            AnyConstructor::Fs(c) => c.name(),
            AnyConstructor::Host(c) => c.name(),
        }
    }

    /// A driver of the kind of the factory: the built-in driver, or what
    /// the host's factory constructs from `config`.
    fn construct(&self, config: &DriverConfig) -> (r: AnyDriver<C::Driver>)
        ensures
            match self {
                AnyConstructor::Fs(_) => r is Fs,
                AnyConstructor::Host(c) => r matches AnyDriver::Host(d) && call_ensures(
                    C::construct,
                    (c, config),
                    d,
                ),
            },
    {
        match self {
            AnyConstructor::Fs(c) => AnyDriver::Fs(c.construct(config)),
            AnyConstructor::Host(c) => AnyDriver::Host(c.construct(config)),
        }
    }
}

/// The catalogue of driver factories, in the order in which they were
/// registered, each under the name it was registered with. No name occurs
/// twice.
pub struct DriverRegistry<C: DriverConstructor> {
    driver_constructors: Vec<(String, AnyConstructor<C>)>,
}

impl<C: DriverConstructor> DriverRegistry<C> {
    #[verifier::type_invariant]
    spec fn inv(self) -> bool {
        Self::distinct(self.driver_constructors@)
    }

    spec fn distinct(entries: Seq<(String, AnyConstructor<C>)>) -> bool {
        forall|i: int, j: int|
            0 <= i < j < entries.len() ==> (#[trigger] entries[i]).0@ != (#[trigger] entries[j]).0@
    }

    spec fn names(entries: Seq<(String, AnyConstructor<C>)>) -> Seq<Seq<char>> {
        Seq::new(entries.len(), |i: int| entries[i].0@)
    }

    /// The names of the registered factories, in the order of registration.
    pub closed spec fn view(&self) -> Seq<Seq<char>> {
        Self::names(self.driver_constructors@)
    }

    /// The registered factories, in the order of registration: the factory
    /// at a position is the one registered under the name at that position.
    pub closed spec fn factories(&self) -> Seq<AnyConstructor<C>> {
        Seq::new(self.driver_constructors@.len(), |i: int| self.driver_constructors@[i].1)
    }

    /// The registry after `constructor` was offered to it under `name`: as
    /// it was if the name is taken, else longer by that name and that
    /// factory.
    pub open spec fn registered(
        before: &Self,
        name: Seq<char>,
        constructor: AnyConstructor<C>,
        after: &Self,
    ) -> bool {
        if before@.contains(name) {
            after@ == before@ && after.factories() == before.factories()
        } else {
            after@ == before@.push(name) && after.factories() == before.factories().push(
                constructor,
            )
        }
    }

    /// `driver` is what the factory registered as `name` constructs from
    /// `config`.
    pub open spec fn constructed(
        &self,
        name: Seq<char>,
        config: &DriverConfig,
        driver: AnyDriver<C::Driver>,
    ) -> bool {
        exists|i: int|
            0 <= i < self@.len() && #[trigger] self@[i] == name && call_ensures(
                AnyConstructor::<C>::construct,
                (&self.factories()[i], config),
                driver,
            )
    }

    /// A registry that holds the built-in factory and no others.
    pub fn new() -> (r: Self)
        ensures
            r@ == seq![fs_name()],
            r.factories() == seq![AnyConstructor::<C>::Fs(FsDriverConstructor {  })],
    {
        let mut registry = DriverRegistry { driver_constructors: Vec::new() };
        assert(registry@ =~= Seq::<Seq<char>>::empty());
        assert(registry.factories() =~= Seq::<AnyConstructor<C>>::empty());
        init_driver(&mut registry);
        assert(registry@ =~= seq![fs_name()]);
        assert(registry.factories() =~= seq![AnyConstructor::<C>::Fs(FsDriverConstructor {  })]);
        registry
    }

    /// The position of the factory called `name`, if there is one.
    fn position(&self, name: &String) -> (r: Option<usize>)
        ensures
            match r {
                Some(i) => i < self@.len() && self@[i as int] == name@,
                None => !self@.contains(name@),
            },
    {
        let mut i: usize = 0;
        while i < self.driver_constructors.len()
            invariant
                i <= self.driver_constructors.len(),
                forall|j: int| 0 <= j < i ==> self@[j] != name@,
            decreases self.driver_constructors.len() - i,
        {
            if self.driver_constructors[i].0 == *name {
                return Some(i);
            }
            i += 1;
        }
        None
    }

    /// Registers a factory under `name`, unless the name is taken: then the
    /// factory that came first stays and nothing changes.
    pub fn register_as(&mut self, name: String, constructor: AnyConstructor<C>)
        ensures
            Self::registered(old(self), name@, constructor, final(self)),
    {
        proof {
            use_type_invariant(&*self);
        }
        if self.position(&name).is_none() {
            let ghost before = self.driver_constructors@;
            let mut entries: Vec<(String, AnyConstructor<C>)> = Vec::new();
            core::mem::swap(&mut entries, &mut self.driver_constructors);
            entries.push((name, constructor));
            assert(Self::names(entries@) =~= old(self)@.push(name@));
            assert(Seq::new(entries@.len(), |i: int| entries@[i].1) =~= old(self).factories().push(
                constructor,
            ));
            assert forall|i: int, j: int| 0 <= i < j < entries@.len() implies (
            #[trigger] entries@[i]).0@ != (#[trigger] entries@[j]).0@ by {
                assert(entries@[i] == before[i]);
                if j == entries@.len() - 1 {
                    assert(old(self)@[i] == before[i].0@);
                } else {
                    assert(entries@[j] == before[j]);
                }
            }
            self.driver_constructors = entries;
        }
    }

    /// Registers a factory of the host under the name the factory gives
    /// itself: the factory is asked once for its name, and is registered
    /// under the answer. Registering a name a second time changes nothing:
    /// the factory that came first stays.
    pub fn register_driver(&mut self, constructor: C)
        ensures
            exists|name: String| #[trigger]
                call_ensures(C::name, (&constructor,), name) && Self::registered(
                    old(self),
                    name@,
                    AnyConstructor::Host(constructor),
                    final(self),
                ),
    {
        let name = constructor.name();
        let ghost answer = name;
        self.register_as(name, AnyConstructor::Host(constructor));
        assert(call_ensures(C::name, (&constructor,), answer));
    }

    /// The names of the registered factories, in the order of registration.
    /// No name occurs twice.
    pub fn list_drivers(&self) -> (r: Vec<String>)
        ensures
            r@.len() == self@.len(),
            forall|i: int| 0 <= i < r@.len() ==> r@[i]@ == self@[i],
            forall|i: int, j: int| 0 <= i < j < self@.len() ==> self@[i] != self@[j],
            self.factories().len() == self@.len(),
    {
        proof {
            use_type_invariant(self);
        }
        let mut names: Vec<String> = Vec::new();
        let mut i: usize = 0;
        while i < self.driver_constructors.len()
            invariant
                i <= self.driver_constructors.len(),
                names@.len() == i,
                forall|j: int| 0 <= j < i ==> names@[j]@ == self@[j],
            decreases self.driver_constructors.len() - i,
        {
            names.push(self.driver_constructors[i].0.clone());
            i += 1;
        }
        names
    }

    /// A driver made by the factory registered as `name`. There is one
    /// exactly when the name is registered; the handle then goes by that
    /// name, and holds what the factory registered under that name
    /// constructed from `config`. No other factory is asked.
    pub fn get_driver(&self, name: &str, config: &DriverConfig) -> (r: Option<
        Driver<AnyDriver<C::Driver>>,
    >)
        ensures
            match r {
                Some(driver) => self@.contains(name@) && driver.spec_name() == name@
                    && self.constructed(name@, config, driver.spec_impl()),
                None => !self@.contains(name@),
            },
    {
        proof {
            use_type_invariant(self);
        }
        let owned = name.to_owned();
        match self.position(&owned) {
            Some(i) => {
                let made = self.driver_constructors[i].1.construct(config);
                assert(self@[i as int] == name@);
                assert(self.factories()[i as int] == self.driver_constructors@[i as int].1);
                Some(Driver::named(owned, made))
            },
            None => None,
        }
    }
}

/// The registry a process starts from: the built-in factory and no others.
pub fn driver_registry<C: DriverConstructor>() -> (r: DriverRegistry<C>)
    ensures
        r@ == seq![fs_name()],
        r.factories() == seq![AnyConstructor::<C>::Fs(FsDriverConstructor {  })],
{
    DriverRegistry::new()
}

} // verus!
