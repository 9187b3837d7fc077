//! The scopes that are open on one isolate, and the local handles they track.
//!
//! Per isolate the scopes form a stack: no scope, then one handle scope, then
//! any number of context scopes above it. A scope is opened from the innermost
//! open scope and only the innermost scope may be closed. Local handles belong
//! to the handle scope; when it closes, none of them is valid any more.

use vstd::prelude::*;

verus! {

/// One open scope.
#[derive(Debug, Clone, Copy)]
pub enum ScopeFrame {
    /// A handle scope, with its token.
    Handle { token: usize },
    /// A context scope, with its token and the context that it binds.
    Context { token: usize, context: usize },
}

impl ScopeFrame {
    /// The token under which the scope was opened.
    pub open spec fn token(self) -> usize {
        match self {
            ScopeFrame::Handle { token } => token,
            ScopeFrame::Context { token, .. } => token,
        }
    }
}

/// The state of one isolate as the boundary sees it.
pub struct ScopeStackView {
    /// Address of the isolate.
    pub isolate: usize,
    /// The open scopes, outermost first.
    pub frames: Seq<ScopeFrame>,
    /// The local handles that are valid.
    pub locals: Set<usize>,
}

impl ScopeStackView {
    /// The state of an isolate on which nothing was opened yet.
    pub open spec fn fresh(isolate: usize) -> ScopeStackView {
        ScopeStackView { isolate, frames: Seq::empty(), locals: Set::empty() }
    }

    /// The outermost scope is a handle scope and every scope above it is a
    /// context scope whose context is a valid local handle; with no scope
    /// open there is no valid local handle.
    pub open spec fn wf(self) -> bool {
        &&& forall|i: int|
            0 <= i < self.frames.len() ==> ((#[trigger] self.frames[i]) is Handle <==> i == 0)
        &&& forall|i: int|
            0 <= i < self.frames.len() ==> self.binds_live_context(#[trigger] self.frames[i])
        &&& self.frames.len() == 0 ==> self.locals == Set::<usize>::empty()
    }

    /// If `frame` is a context scope, its context is a valid local handle.
    pub open spec fn binds_live_context(self, frame: ScopeFrame) -> bool {
        frame matches ScopeFrame::Context { context, .. } ==> self.locals.contains(context)
    }

    /// No scope is open.
    pub open spec fn no_scope(self) -> bool {
        self.frames.len() == 0
    }

    /// `token` is the token of the innermost open scope.
    pub open spec fn is_innermost(self, token: usize) -> bool {
        self.frames.len() > 0 && self.frames.last().token() == token
    }

    /// The innermost open scope carries a context.
    pub open spec fn in_context(self) -> bool {
        self.frames.len() >= 2
    }

    /// `local` is a valid local handle.
    pub open spec fn is_live(self, local: usize) -> bool {
        self.locals.contains(local)
    }

    /// A handle scope may be opened: no scope is open.
    pub open spec fn may_open_handle_scope(self) -> bool {
        self.no_scope()
    }

    /// A context scope may be opened from `parent` on `context`: `parent` is
    /// the innermost open scope and `context` is a valid local handle.
    pub open spec fn may_open_context_scope(self, parent: usize, context: usize) -> bool {
        self.is_innermost(parent) && self.is_live(context)
    }

    /// The context scope `token` may be closed: it is the innermost open
    /// scope.
    pub open spec fn may_close_context_scope(self, token: usize) -> bool {
        self.frames.len() >= 2 && self.is_innermost(token)
    }

    /// The scope `token` may be closed through the table of the handle
    /// scopes: it is the innermost open scope. The scope's own kind decides
    /// what closing it means: a context scope leaves the local handles
    /// alone, the handle scope takes them with it.
    pub open spec fn may_close_scope(self, token: usize) -> bool {
        self.is_innermost(token)
    }

    /// The state after a handle scope was opened under `token`.
    pub open spec fn open_handle_scope(self, token: usize) -> ScopeStackView {
        ScopeStackView { frames: self.frames.push(ScopeFrame::Handle { token }), ..self }
    }

    /// The state after a context scope was opened under `token` on `context`.
    pub open spec fn open_context_scope(self, token: usize, context: usize) -> ScopeStackView {
        ScopeStackView { frames: self.frames.push(ScopeFrame::Context { token, context }), ..self }
    }

    /// The state after the innermost scope was closed. Closing the handle
    /// scope ends the validity of every local handle.
    pub open spec fn close_innermost(self) -> ScopeStackView {
        ScopeStackView {
            isolate: self.isolate,
            frames: self.frames.drop_last(),
            locals: if self.frames.len() == 1 {
                Set::empty()
            } else {
                self.locals
            },
        }
    }

    /// The state after the engine handed out the local handle `local`.
    pub open spec fn with_local(self, local: usize) -> ScopeStackView {
        ScopeStackView { locals: self.locals.insert(local), ..self }
    }

    /// Opening a handle scope keeps the state well formed.
    pub proof fn lemma_open_handle_scope_wf(self, token: usize)
        requires
            self.wf(),
            self.may_open_handle_scope(),
        ensures
            self.open_handle_scope(token).wf(),
            self.open_handle_scope(token).is_innermost(token),
            self.open_handle_scope(token).frames.len() == 1,
    {
    }

    /// Opening a context scope keeps the state well formed.
    pub proof fn lemma_open_context_scope_wf(self, parent: usize, token: usize, context: usize)
        requires
            self.wf(),
            self.may_open_context_scope(parent, context),
        ensures
            self.open_context_scope(token, context).wf(),
            self.open_context_scope(token, context).is_innermost(token),
            self.open_context_scope(token, context).in_context(),
    {
    }

    /// Closing the innermost scope keeps the state well formed.
    pub proof fn lemma_close_innermost_wf(self)
        requires
            self.wf(),
            !self.no_scope(),
        ensures
            self.close_innermost().wf(),
            self.close_innermost().frames.len() == self.frames.len() - 1,
    {
        let after = self.close_innermost();
        assert forall|i: int| 0 <= i < after.frames.len() implies (
        (#[trigger] after.frames[i]) is Handle <==> i == 0) by {
            assert(after.frames[i] == self.frames[i]);
        }
        assert forall|i: int| 0 <= i < after.frames.len() implies after.binds_live_context(
            #[trigger] after.frames[i],
        ) by {
            assert(after.frames[i] == self.frames[i]);
        }
    }

    /// A new local handle keeps the state well formed, and what was valid
    /// stays valid.
    pub proof fn lemma_with_local_wf(self, local: usize)
        requires
            self.wf(),
            !self.no_scope(),
        ensures
            self.with_local(local).wf(),
            self.with_local(local).is_live(local),
            forall|other: usize| self.is_live(other) ==> self.with_local(local).is_live(other),
    {
    }

    /// Scopes close in the reverse of the order in which they were opened:
    /// only the innermost scope may be closed, by either way of closing, and
    /// while a context scope is open whatever is closed is a context scope,
    /// so the handle scope stays open.
    pub proof fn lemma_only_innermost_closes(self, token: usize)
        requires
            self.wf(),
        ensures
            self.may_close_context_scope(token) ==> self.is_innermost(token),
            self.may_close_scope(token) ==> self.is_innermost(token),
            !self.is_innermost(token) ==> !self.may_close_context_scope(token)
                && !self.may_close_scope(token),
            self.in_context() ==> self.frames.last() is Context
                && self.close_innermost().frames.len() >= 1
                && self.close_innermost().frames[0] == self.frames[0]
                && self.close_innermost().locals == self.locals,
            self.in_context() && self.frames[0].token() != self.frames.last().token()
                ==> !self.may_close_scope(self.frames[0].token()),
    {
    }

    /// Closing a scope right after it was opened gives back the state in
    /// which it was opened, but for the local handles that a closing handle
    /// scope takes with it.
    pub proof fn lemma_open_then_close(self, token: usize, context: usize)
        requires
            self.wf(),
        ensures
            self.open_context_scope(token, context).close_innermost().frames == self.frames,
            !self.no_scope() ==> self.open_context_scope(token, context).close_innermost() == self,
            self.no_scope() ==> self.open_handle_scope(token).close_innermost() == self,
    {
        assert(self.frames.push(ScopeFrame::Context { token, context }).drop_last()
            =~= self.frames);
        assert(self.frames.push(ScopeFrame::Handle { token }).drop_last() =~= self.frames);
    }

    /// A handle scope, a context made in it, a context scope on that context,
    /// then the context scope closed and the handle scope closed: every step
    /// is allowed when its turn comes, and the isolate ends in the state in
    /// which it began. With the context scope still open, the handle scope
    /// may not be closed: its token is not the innermost one, and what a
    /// close would end is the context scope.
    pub proof fn lemma_nested_scopes_close_in_reverse(
        self,
        handle: usize,
        context: usize,
        inner: usize,
    )
        requires
            self.wf(),
            self.no_scope(),
        ensures
            ({
                let opened = self.open_handle_scope(handle);
                let with_context = opened.with_local(context);
                let entered = with_context.open_context_scope(inner, context);
                let left = entered.close_innermost();
                let closed = left.close_innermost();
                &&& self.may_open_handle_scope()
                &&& opened.wf() && opened.is_innermost(handle)
                &&& with_context.wf() && with_context.may_open_context_scope(handle, context)
                &&& entered.wf() && entered.may_close_context_scope(inner)
                    && entered.may_close_scope(inner)
                &&& handle != inner ==> !entered.may_close_scope(handle)
                &&& left.wf() && left == with_context && left.may_close_scope(handle)
                &&& !left.may_close_context_scope(handle)
                &&& closed.wf() && closed == self
            }),
    {
        let opened = self.open_handle_scope(handle);
        let with_context = opened.with_local(context);
        let entered = with_context.open_context_scope(inner, context);
        self.lemma_open_handle_scope_wf(handle);
        opened.lemma_with_local_wf(context);
        with_context.lemma_open_context_scope_wf(handle, inner, context);
        with_context.lemma_open_then_close(inner, context);
        self.lemma_open_then_close(handle, 0);
        assert(with_context.close_innermost().frames =~= self.frames);
    }
}

/// The scopes and local handles of one isolate.
pub struct ScopeStack {
    isolate: usize,
    frames: Vec<ScopeFrame>,
    locals: Vec<usize>,
}

impl View for ScopeStack {
    type V = ScopeStackView;

    closed spec fn view(&self) -> ScopeStackView {
        ScopeStackView {
            isolate: self.isolate,
            frames: self.frames@,
            locals: self.locals@.to_set(),
        }
    }
}

impl ScopeStack {
    /// See [`ScopeStackView::wf`].
    pub open spec fn wf(&self) -> bool {
        self@.wf()
    }

    /// The state of the isolate at address `isolate`, with no scope open.
    pub fn new(isolate: usize) -> (r: Self)
        ensures
            r@ == ScopeStackView::fresh(isolate),
            r.wf(),
    {
        let r = ScopeStack { isolate, frames: Vec::new(), locals: Vec::new() };
        assert(r.locals@.to_set() =~= Set::<usize>::empty());
        r
    }

    /// Address of the isolate.
    pub fn isolate(&self) -> (r: usize)
        ensures
            r == self@.isolate,
    {
        self.isolate
    }

    /// Number of open scopes.
    pub fn depth(&self) -> (r: usize)
        ensures
            r == self@.frames.len(),
    {
        self.frames.len()
    }

    /// Whether `token` is the token of the innermost open scope.
    pub fn is_innermost(&self, token: usize) -> (r: bool)
        ensures
            r == self@.is_innermost(token),
    {
        let n = self.frames.len();
        if n == 0 {
            false
        } else {
            match self.frames[n - 1] {
                ScopeFrame::Handle { token: t } => t == token,
                ScopeFrame::Context { token: t, .. } => t == token,
            }
        }
    }

    /// Whether the innermost open scope carries a context.
    pub fn in_context(&self) -> (r: bool)
        ensures
            r == self@.in_context(),
    {
        self.frames.len() >= 2
    }

    /// Whether a handle scope may be opened.
    pub fn may_open_handle_scope(&self) -> (r: bool)
        ensures
            r == self@.may_open_handle_scope(),
    {
        self.frames.len() == 0
    }

    /// Whether a context scope may be opened from `parent` on `context`.
    pub fn may_open_context_scope(&self, parent: usize, context: usize) -> (r: bool)
        ensures
            r == self@.may_open_context_scope(parent, context),
    {
        self.is_innermost(parent) && self.is_live(context)
    }

    /// Whether the context scope `token` may be closed.
    pub fn may_close_context_scope(&self, token: usize) -> (r: bool)
        ensures
            r == self@.may_close_context_scope(token),
    {
        self.frames.len() >= 2 && self.is_innermost(token)
    }

    /// Whether the scope `token` may be closed through the table of the
    /// handle scopes.
    pub fn may_close_scope(&self, token: usize) -> (r: bool)
        ensures
            r == self@.may_close_scope(token),
    {
        self.is_innermost(token)
    }

    /// Whether `local` is a valid local handle.
    pub fn is_live(&self, local: usize) -> (r: bool)
        ensures
            r == self@.is_live(local),
    {
        let mut i: usize = 0;
        while i < self.locals.len()
            invariant
                i <= self.locals.len(),
                forall|j: int| 0 <= j < i ==> self.locals@[j] != local,
            decreases self.locals.len() - i,
        {
            if self.locals[i] == local {
                assert(self.locals@.contains(local));
                return true;
            }
            i += 1;
        }
        false
    }

    /// Records a handle scope that the engine opened under `token`.
    pub(crate) fn open_handle_scope(&mut self, token: usize)
        requires
            old(self).wf(),
            old(self)@.may_open_handle_scope(),
        ensures
            final(self)@ == old(self)@.open_handle_scope(token),
            final(self).wf(),
    {
        proof {
            self@.lemma_open_handle_scope_wf(token);
        }
        self.frames.push(ScopeFrame::Handle { token });
    }

    /// Records a context scope that the engine opened under `token` from the
    /// scope `parent`, on the context `context`.
    pub(crate) fn open_context_scope(&mut self, parent: usize, token: usize, context: usize)
        requires
            old(self).wf(),
            old(self)@.may_open_context_scope(parent, context),
        ensures
            final(self)@ == old(self)@.open_context_scope(token, context),
            final(self).wf(),
    {
        proof {
            self@.lemma_open_context_scope_wf(parent, token, context);
        }
        self.frames.push(ScopeFrame::Context { token, context });
    }

    /// Records that the innermost scope was closed.
    pub(crate) fn close_innermost(&mut self)
        requires
            old(self).wf(),
            !old(self)@.no_scope(),
        ensures
            final(self)@ == old(self)@.close_innermost(),
            final(self).wf(),
    {
        proof {
            self@.lemma_close_innermost_wf();
        }
        let was_last = self.frames.len() == 1;
        self.frames.pop();
        if was_last {
            self.locals.clear();
            assert(self.locals@.to_set() =~= Set::<usize>::empty());
        }
        assert(self.frames@ =~= old(self).frames@.drop_last());
    }

    /// Records a local handle that the engine handed out.
    pub(crate) fn adopt_local(&mut self, local: usize)
        requires
            old(self).wf(),
            !old(self)@.no_scope(),
        ensures
            final(self)@ == old(self)@.with_local(local),
            final(self).wf(),
    {
        proof {
            self@.lemma_with_local_wf(local);
            self.locals@.lemma_push_to_set_commute(local);
        }
        self.locals.push(local);
    }
}

} // verus!
