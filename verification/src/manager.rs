//! The context that turns notifications into callbacks of the host: its
//! caches, its scope, and the two steps every callback goes through.

use vstd::prelude::*;
use vstd::string::StringExecFns;
use crate::arena::LocalFrame;
use crate::cache::{keys_after, slot_after, HandleCache, Resolution};
use crate::error::JniError;
use crate::foreign::{ForeignObject, ForeignObjectView, ForeignValue, Invocation, InvocationView};
use crate::shape::{
    allots, class_shapes, fit_all, keeps, lemma_allots_chain, lemma_allots_nothing, put, put_next,
    Shape,
};
use crate::signature::{arity_of, declared_arity, parse_declared_arity};

verus! {

/// Marshals the notifications of one chip for the callback object of the host.
#[derive(Debug)]
pub struct NotificationManagerAndroid {
    /// Name of the chip, handed to the host with core notifications.
    pub chip_id: String,
    /// The scope of the notification that is being processed.
    pub env: LocalFrame,
    /// Handles of the callback methods, keyed by name and signature.
    pub jmethod_id_map: HandleCache,
    /// Handles of the classes, keyed by name.
    pub jclass_map: HandleCache,
    /// Why the last notification failed, if it did.
    pub last_error: Option<JniError>,
}

impl NotificationManagerAndroid {
    /// The scope and both caches are well formed.
    pub open spec fn wf(&self) -> bool {
        &&& self.env.wf()
        &&& self.jmethod_id_map.wf()
        &&& self.jclass_map.wf()
    }

    /// `post` differs from `self` in nothing that the host or a later
    /// notification can observe.
    pub open spec fn unchanged(&self, post: &Self) -> bool {
        &&& post.chip_id@ == self.chip_id@
        &&& post.last_error == self.last_error
        &&& post.env.capacity() == self.env.capacity()
        &&& post.env.objects() == self.env.objects()
        &&& post.env.calls() == self.env.calls()
        &&& post.jclass_map.keys() == self.jclass_map.keys()
        &&& post.jclass_map.settled() == self.jclass_map.settled()
        &&& post.jmethod_id_map.keys() == self.jmethod_id_map.keys()
        &&& post.jmethod_id_map.settled() == self.jmethod_id_map.settled()
    }

    /// `post` is `self` after one invocation of the callback `name` with
    /// `args`, and after nothing else.
    pub open spec fn called(
        &self,
        post: &Self,
        name: Seq<char>,
        signature: Seq<char>,
        args: Seq<ForeignValue>,
    ) -> bool {
        &&& post.chip_id@ == self.chip_id@
        &&& post.last_error == self.last_error
        &&& post.env.capacity() == self.env.capacity()
        &&& post.env.objects() == self.env.objects()
        &&& post.env.calls() == self.env.calls().push(
            InvocationView {
                method: slot_after(self.jmethod_id_map.keys(), name + signature) as usize,
                lookup: !self.jmethod_id_map.contains(name + signature),
                name,
                signature,
                args,
            },
        )
        &&& post.jclass_map.keys() == self.jclass_map.keys()
        &&& post.jclass_map.settled() == self.jclass_map.settled()
        &&& post.jmethod_id_map.keys() == keys_after(self.jmethod_id_map.keys(), name + signature)
        &&& post.jmethod_id_map.settled() == self.jmethod_id_map.settled()
    }

    /// What a call of `cached_jni_call` on `self` leaves: one invocation where
    /// the signature declares as many arguments as are given, else the
    /// failure and no trace.
    pub open spec fn issues(
        &self,
        post: &Self,
        r: Result<(), JniError>,
        name: Seq<char>,
        signature: Seq<char>,
        args: Seq<ForeignValue>,
    ) -> bool {
        if declared_arity(signature) == Some(args.len()) {
            r is Ok && self.called(post, name, signature, args)
        } else {
            r == Err::<(), JniError>(JniError::EncodingContract) && self.unchanged(post)
        }
    }

    /// `post` is `self` after a notification was given up: nothing was
    /// invoked, the method cache is as it was, and scope and class cache
    /// hold what they held, with at most more behind it.
    pub open spec fn aborted(&self, post: &Self) -> bool {
        &&& post.chip_id@ == self.chip_id@
        &&& post.last_error == self.last_error
        &&& keeps(&self.env, &post.env)
        &&& post.jclass_map.keys().len() >= self.jclass_map.keys().len()
        &&& post.jclass_map.keys().take(self.jclass_map.keys().len() as int)
            == self.jclass_map.keys()
        &&& post.jclass_map.settled() == self.jclass_map.settled()
        &&& post.jmethod_id_map.keys() == self.jmethod_id_map.keys()
        &&& post.jmethod_id_map.settled() == self.jmethod_id_map.settled()
    }

    /// `post` is `self` part of the way through a notification, after an
    /// attempt to allocate objects of the given shapes: like `aborted`, and
    /// the objects are all there where the attempt was `done`, else the
    /// scope had no room for them.
    pub open spec fn stages(&self, post: &Self, done: bool, shapes: Seq<Shape>) -> bool {
        &&& post.chip_id@ == self.chip_id@
        &&& post.last_error == self.last_error
        &&& allots(&self.env, &post.env, done, shapes)
        &&& post.jclass_map.keys().len() >= self.jclass_map.keys().len()
        &&& post.jclass_map.keys().take(self.jclass_map.keys().len() as int)
            == self.jclass_map.keys()
        &&& post.jclass_map.settled() == self.jclass_map.settled()
        &&& post.jmethod_id_map.keys() == self.jmethod_id_map.keys()
        &&& post.jmethod_id_map.settled() == self.jmethod_id_map.settled()
    }

    /// `post` is `self` after objects of the given shapes were allocated, the
    /// class cache came to hold `classes`, and the callback `name` was
    /// invoked once with `args`.
    pub open spec fn delivered(
        &self,
        post: &Self,
        shapes: Seq<Shape>,
        classes: Seq<Seq<char>>,
        name: Seq<char>,
        signature: Seq<char>,
        args: Seq<ForeignValue>,
    ) -> bool {
        &&& post.chip_id@ == self.chip_id@
        &&& post.last_error == self.last_error
        &&& post.env.capacity() == self.env.capacity()
        &&& post.env.objects().len() >= self.env.objects().len()
        &&& post.env.objects().take(self.env.objects().len() as int) == self.env.objects()
        &&& fit_all(post.env.objects().skip(self.env.objects().len() as int), shapes)
        &&& post.env.calls() == self.env.calls().push(
            InvocationView {
                method: slot_after(self.jmethod_id_map.keys(), name + signature) as usize,
                lookup: !self.jmethod_id_map.contains(name + signature),
                name,
                signature,
                args,
            },
        )
        &&& post.jclass_map.keys() == classes
        &&& post.jclass_map.settled() == self.jclass_map.settled()
        &&& post.jmethod_id_map.keys() == keys_after(self.jmethod_id_map.keys(), name + signature)
        &&& post.jmethod_id_map.settled() == self.jmethod_id_map.settled()
    }

    /// What the delivery of a valid notification leaves: where the scope has
    /// no room for all its objects, or the signature of the callback does not
    /// declare as many arguments as are given, the failure and no
    /// invocation; else the objects and one invocation.
    pub open spec fn delivers(
        &self,
        post: &Self,
        r: Result<(), JniError>,
        shapes: Seq<Shape>,
        classes: Seq<Seq<char>>,
        name: Seq<char>,
        signature: Seq<char>,
        args: Seq<ForeignValue>,
    ) -> bool {
        if shapes.len() > self.env.room() {
            r == Err::<(), JniError>(JniError::CapacityExceeded) && self.aborted(post)
        } else if declared_arity(signature) != Some(args.len()) {
            r == Err::<(), JniError>(JniError::EncodingContract) && self.aborted(post)
        } else {
            r is Ok && self.delivered(post, shapes, classes, name, signature, args)
        }
    }

    /// Finds the handle of the class `class_name`. A class that the cache
    /// holds costs nothing. For any other the scope takes two objects, the
    /// name and the class the host is to find under it, and the cache takes
    /// the name; where the scope lacks the room nothing changes.
    pub fn find_local_class(
        jclass_map: &mut HandleCache,
        env: &mut LocalFrame,
        class_name: &str,
    ) -> (r: Result<usize, JniError>)
        requires
            old(jclass_map).wf(),
            old(env).wf(),
        ensures
            final(jclass_map).wf(),
            final(env).wf(),
            final(env).capacity() == old(env).capacity(),
            final(env).calls() == old(env).calls(),
            final(jclass_map).settled() == old(jclass_map).settled(),
            allots(
                old(env),
                final(env),
                r is Ok,
                class_shapes(old(jclass_map).keys(), class_name@, old(env).objects().len()),
            ),
            r is Ok ==> {
                &&& r->Ok_0 == slot_after(old(jclass_map).keys(), class_name@)
                &&& r->Ok_0 < final(jclass_map).keys().len()
                &&& final(jclass_map).keys() == keys_after(old(jclass_map).keys(), class_name@)
            },
            r is Err ==> {
                &&& r->Err_0 == JniError::CapacityExceeded
                &&& final(jclass_map).keys() == old(jclass_map).keys()
            },
    {
        match jclass_map.find(class_name) {
            Some(slot) => {
                proof {
                    lemma_allots_nothing(env);
                }
                Ok(slot)
            },
            None => {
                if env.remaining() < 2 {
                    proof {
                        lemma_allots_nothing(env);
                    }
                    return Err(JniError::CapacityExceeded);
                }
                let ghost start = *env;
                let name = match put(env, ForeignObject::Text(class_name.to_owned())) {
                    Ok(position) => position,
                    Err(e) => {
                        return Err(e);
                    },
                };
                let ghost named = *env;
                let resolution = jclass_map.resolve(class_name);
                let loaded = ForeignObject::LoadedClass { slot: resolution.slot, name };
                let r = put(env, loaded);
                proof {
                    lemma_allots_chain(
                        &start,
                        &named,
                        env,
                        true,
                        seq![Shape::Exactly(ForeignObjectView::Text(class_name@))],
                        r is Ok,
                        seq![Shape::Exactly(loaded@)],
                    );
                    assert(seq![Shape::Exactly(ForeignObjectView::Text(class_name@))] + seq![
                        Shape::Exactly(loaded@),
                    ] =~= class_shapes(
                        old(jclass_map).keys(),
                        class_name@,
                        old(env).objects().len(),
                    ));
                }
                match r {
                    Ok(_) => Ok(resolution.slot),
                    Err(e) => Err(e),
                }
            },
        }
    }

    /// Resolves the class `class_name` for the notification in progress: the
    /// handle it has in the cache, at the cost `find_local_class` names.
    pub fn resolve_class(&mut self, class_name: &str) -> (r: Result<usize, JniError>)
        requires
            old(self).wf(),
        ensures
            final(self).wf(),
            old(self).stages(
                final(self),
                r is Ok,
                class_shapes(
                    old(self).jclass_map.keys(),
                    class_name@,
                    old(self).env.objects().len(),
                ),
            ),
            r is Ok ==> {
                &&& r->Ok_0 == slot_after(old(self).jclass_map.keys(), class_name@)
                &&& final(self).jclass_map.keys() == keys_after(
                    old(self).jclass_map.keys(),
                    class_name@,
                )
            },
            r is Err ==> r->Err_0 == JniError::CapacityExceeded,
    {
        proof {
            old(self).lemma_stages_nothing();
        }
        let r = self.find_class_next(class_name, Ghost(*old(self)), Ghost(Seq::empty()));
        assert(Seq::<Shape>::empty() + class_shapes(
            old(self).jclass_map.keys(),
            class_name@,
            old(self).env.objects().len(),
        ) =~= class_shapes(
            old(self).jclass_map.keys(),
            class_name@,
            old(self).env.objects().len(),
        ));
        r
    }

    /// Resolves the method `name` of signature `sig`: the handle it has in
    /// the cache under both together, and whether the host has to look it up
    /// because the cache did not hold it yet.
    pub fn resolve_method(&mut self, name: &str, sig: &str) -> (r: Resolution)
        requires
            old(self).wf(),
        ensures
            final(self).wf(),
            r.slot == slot_after(old(self).jmethod_id_map.keys(), name@ + sig@),
            r.fresh == !old(self).jmethod_id_map.contains(name@ + sig@),
            final(self).jmethod_id_map.keys() == keys_after(
                old(self).jmethod_id_map.keys(),
                name@ + sig@,
            ),
            final(self).jmethod_id_map.settled() == old(self).jmethod_id_map.settled(),
            final(self).chip_id@ == old(self).chip_id@,
            final(self).last_error == old(self).last_error,
            final(self).env.capacity() == old(self).env.capacity(),
            final(self).env.objects() == old(self).env.objects(),
            final(self).env.calls() == old(self).env.calls(),
            final(self).jclass_map.keys() == old(self).jclass_map.keys(),
            final(self).jclass_map.settled() == old(self).jclass_map.settled(),
    {
        let mut name_signature = name.to_owned();
        name_signature.append(sig);
        self.jmethod_id_map.resolve(name_signature.as_str())
    }

    /// Issues one invocation of the callback `name`, given what the parser
    /// made of `sig`: the number of arguments it declares, or `None` where
    /// it is no signature.
    pub fn invoke_parsed(
        &mut self,
        name: &str,
        sig: &str,
        args: Vec<ForeignValue>,
        arity: Option<usize>,
    ) -> (r: Result<(), JniError>)
        requires
            old(self).wf(),
        ensures
            final(self).wf(),
            arity_of(arity) == Some(args@.len()) ==> r is Ok && old(self).called(
                final(self),
                name@,
                sig@,
                args@,
            ),
            arity_of(arity) != Some(args@.len()) ==> r == Err::<(), JniError>(
                JniError::EncodingContract,
            ) && old(self).unchanged(final(self)),
    {
        match arity {
            Some(declared) => {
                if declared != args.len() {
                    return Err(JniError::EncodingContract);
                }
            },
            None => {
                return Err(JniError::EncodingContract);
            },
        }
        let resolution = self.resolve_method(name, sig);
        self.env.call(
            Invocation {
                method: resolution.slot,
                lookup: resolution.fresh,
                name: name.to_owned(),
                signature: sig.to_owned(),
                args,
            },
        );
        Ok(())
    }

    /// Invokes the callback `name` of signature `sig` with `args`, once. The
    /// method's handle comes from the cache; the host looks it up only where
    /// the cache did not hold it. Where `sig` does not declare as many
    /// arguments as `args` holds, nothing is invoked.
    pub fn cached_jni_call(&mut self, name: &str, sig: &str, args: Vec<ForeignValue>) -> (r: Result<
        (),
        JniError,
    >)
        requires
            old(self).wf(),
        ensures
            final(self).wf(),
            old(self).issues(final(self), r, name@, sig@, args@),
    {
        let arity = parse_declared_arity(sig);
        self.invoke_parsed(name, sig, args, arity)
    }

    /// Two stages in a row are one stage of both lists of shapes.
    pub proof fn lemma_stages_chain(
        &self,
        mid: &Self,
        post: &Self,
        first: Seq<Shape>,
        done: bool,
        second: Seq<Shape>,
    )
        requires
            self.wf(),
            self.stages(mid, true, first),
            mid.stages(post, done, second),
        ensures
            self.stages(post, done, first + second),
    {
        lemma_allots_chain(&self.env, &mid.env, &post.env, true, first, done, second);
        let a = self.jclass_map.keys().len() as int;
        let b = mid.jclass_map.keys().len() as int;
        assert(post.jclass_map.keys().take(a) =~= post.jclass_map.keys().take(b).take(a));
    }

    /// A notification that has done nothing yet is at a stage of no objects.
    pub proof fn lemma_stages_nothing(&self)
        requires
            self.wf(),
        ensures
            self.stages(self, true, Seq::<Shape>::empty()),
    {
        lemma_allots_nothing(&self.env);
        assert(self.jclass_map.keys().take(self.jclass_map.keys().len() as int)
            =~= self.jclass_map.keys());
    }

    /// Finds the handle of the class `class_name` part of the way through a
    /// notification that began at `origin` and has allocated objects of the
    /// shapes `sofar` since.
    pub(crate) fn find_class_next(
        &mut self,
        class_name: &str,
        Ghost(origin): Ghost<Self>,
        Ghost(sofar): Ghost<Seq<Shape>>,
    ) -> (r: Result<usize, JniError>)
        requires
            old(self).wf(),
            origin.wf(),
            origin.stages(old(self), true, sofar),
        ensures
            final(self).wf(),
            origin.stages(
                final(self),
                r is Ok,
                sofar + class_shapes(
                    old(self).jclass_map.keys(),
                    class_name@,
                    old(self).env.objects().len(),
                ),
            ),
            r is Ok ==> {
                &&& r->Ok_0 == slot_after(old(self).jclass_map.keys(), class_name@)
                &&& final(self).jclass_map.keys() == keys_after(
                    old(self).jclass_map.keys(),
                    class_name@,
                )
            },
            r is Err ==> r->Err_0 == JniError::CapacityExceeded,
    {
        let ghost before = *self;
        let r = Self::find_local_class(&mut self.jclass_map, &mut self.env, class_name);
        proof {
            lemma_allots_chain(
                &origin.env,
                &before.env,
                &self.env,
                true,
                sofar,
                r is Ok,
                class_shapes(before.jclass_map.keys(), class_name@, before.env.objects().len()),
            );
            let a = origin.jclass_map.keys().len() as int;
            assert(self.jclass_map.keys().take(a) =~= before.jclass_map.keys().take(a));
        }
        r
    }

    /// Allocates `object` part of the way through a notification that began
    /// at `origin` and has allocated objects of the shapes `sofar` since.
    pub(crate) fn put_object(
        &mut self,
        object: ForeignObject,
        Ghost(origin): Ghost<Self>,
        Ghost(sofar): Ghost<Seq<Shape>>,
    ) -> (r: Result<usize, JniError>)
        requires
            old(self).wf(),
            origin.wf(),
            origin.stages(old(self), true, sofar),
        ensures
            final(self).wf(),
            origin.stages(final(self), r is Ok, sofar.push(Shape::Exactly(object@))),
            r is Ok ==> r->Ok_0 == old(self).env.objects().len() && r->Ok_0
                == origin.env.objects().len() + sofar.len(),
            r is Ok ==> final(self).jclass_map.keys() == old(self).jclass_map.keys(),
            r is Err ==> r->Err_0 == JniError::CapacityExceeded,
    {
        put_next(&mut self.env, object, Ghost(origin.env), Ghost(sofar))
    }

    /// Invokes the callback `name` at the end of a notification that began at
    /// `origin` and has allocated objects of the given shapes since.
    pub(crate) fn finish(
        &mut self,
        name: &str,
        sig: &str,
        args: Vec<ForeignValue>,
        Ghost(origin): Ghost<Self>,
        Ghost(shapes): Ghost<Seq<Shape>>,
    ) -> (r: Result<(), JniError>)
        requires
            old(self).wf(),
            origin.wf(),
            origin.stages(old(self), true, shapes),
        ensures
            final(self).wf(),
            origin.delivers(
                final(self),
                r,
                shapes,
                old(self).jclass_map.keys(),
                name@,
                sig@,
                args@,
            ),
    {
        self.cached_jni_call(name, sig, args)
    }
}

} // verus!
