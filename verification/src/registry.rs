use vstd::prelude::*;

verus! {

/// A callback table handed to the native API, known by its address.
pub type SpiHandle = u64;

/// One piece of work on the native API, in the order in which it is to be done.
#[derive(Clone, Copy, Debug, PartialEq, Eq, Structural)]
pub enum ApiCommand {
    /// Make this callback table the one that the native API calls.
    RegisterSpi(SpiHandle),
    /// Hand the native API a null callback table, so that it calls none.
    UnregisterSpi,
    /// Free this callback table.
    FreeSpi(SpiHandle),
    /// Release the native API object itself.
    ReleaseApi,
}

/// Which callback table the native API has been handed, as the market-data API keeps it.
pub struct SpiRegistry {
    registered: Option<SpiHandle>,
}

impl View for SpiRegistry {
    type V = Option<SpiHandle>;

    closed spec fn view(&self) -> Option<SpiHandle> {
        self.registered
    }
}

/// The work of registering `spi` while `prev` is registered: hand over the new table
/// first, and only then free the one it replaces.
pub open spec fn register_commands(prev: Option<SpiHandle>, spi: SpiHandle) -> Seq<ApiCommand> {
    seq![ApiCommand::RegisterSpi(spi)] + match prev {
        Some(old) => seq![ApiCommand::FreeSpi(old)],
        None => Seq::empty(),
    }
}

/// The work of tearing the API down while `prev` is registered: withdraw the table,
/// free it, and release the API last.
pub open spec fn release_commands(prev: Option<SpiHandle>) -> Seq<ApiCommand> {
    let withdraw = match prev {
        Some(old) => seq![ApiCommand::UnregisterSpi, ApiCommand::FreeSpi(old)],
        None => Seq::empty(),
    };
    withdraw.push(ApiCommand::ReleaseApi)
}

impl SpiRegistry {
    /// A freshly created API, which has no callback table yet.
    pub fn new() -> (r: Self)
        ensures
            r@ is None,
    {
        SpiRegistry { registered: None }
    }

    /// The callback table that the native API currently holds.
    pub fn registered(&self) -> (h: Option<SpiHandle>)
        ensures
            h == self@,
    {
        self.registered
    }

    /// Registers `spi` in place of the current table, and says what to do on the native side.
    pub fn register_spi(&mut self, spi: SpiHandle) -> (cmds: Vec<ApiCommand>)
        ensures
            final(self)@ == Some(spi),
            cmds@ == register_commands(old(self)@, spi),
            old(self)@ is None ==> cmds@ == seq![ApiCommand::RegisterSpi(spi)],
            old(self)@ matches Some(old) ==> cmds@ == seq![ApiCommand::RegisterSpi(spi), ApiCommand::FreeSpi(old)],
    {
        let prev = self.registered;
        self.registered = Some(spi);
        let mut cmds: Vec<ApiCommand> = Vec::new();
        cmds.push(ApiCommand::RegisterSpi(spi));
        if let Some(old) = prev {
            cmds.push(ApiCommand::FreeSpi(old));
        }
        cmds
    }

    /// Tears the API down, and says what to do on the native side.
    pub fn release(&mut self) -> (cmds: Vec<ApiCommand>)
        ensures
            final(self)@ is None,
            cmds@ == release_commands(old(self)@),
            old(self)@ is None ==> cmds@ == seq![ApiCommand::ReleaseApi],
            old(self)@ matches Some(old) ==> cmds@ == seq![ApiCommand::UnregisterSpi, ApiCommand::FreeSpi(old), ApiCommand::ReleaseApi],
    {
        let prev = self.registered;
        self.registered = None;
        let mut cmds: Vec<ApiCommand> = Vec::new();
        if let Some(old) = prev {
            cmds.push(ApiCommand::UnregisterSpi);
            cmds.push(ApiCommand::FreeSpi(old));
        }
        cmds.push(ApiCommand::ReleaseApi);
        cmds
    }
}


/// What the native side holds while the commands are carried out: the table it would
/// call, the tables still allocated, and whether the API object has been released.
pub struct NativeState {
    pub target: Option<SpiHandle>,
    pub live: Set<SpiHandle>,
    pub released: bool,
}

/// One command on the native side, or `None` where it would be a fault: any command after
/// the release, handing over a table that is not allocated, or freeing a table that is
/// not allocated or that the native API may still call.
pub open spec fn step(s: NativeState, c: ApiCommand) -> Option<NativeState> {
    if s.released {
        None
    } else {
        match c {
            ApiCommand::RegisterSpi(h) => if s.live.contains(h) {
                Some(NativeState { target: Some(h), live: s.live, released: false })
            } else {
                None
            },
            ApiCommand::UnregisterSpi => Some(NativeState { target: None, live: s.live, released: false }),
            ApiCommand::FreeSpi(h) => if s.live.contains(h) && s.target != Some(h) {
                Some(NativeState { target: s.target, live: s.live.remove(h), released: false })
            } else {
                None
            },
            ApiCommand::ReleaseApi => Some(NativeState { target: s.target, live: s.live, released: true }),
        }
    }
}

/// The commands carried out in order, or `None` if one of them faults.
pub open spec fn run(s: NativeState, cmds: Seq<ApiCommand>) -> Option<NativeState>
    decreases cmds.len(),
{
    if cmds.len() == 0 {
        Some(s)
    } else {
        match step(s, cmds[0]) {
            Some(t) => run(t, cmds.drop_first()),
            None => None,
        }
    }
}

/// The native side agrees with the registry: the API is alive, and it calls exactly the
/// registered table, which is still allocated.
pub open spec fn in_sync(s: NativeState, registered: Option<SpiHandle>) -> bool {
    &&& !s.released
    &&& s.target == registered
    &&& registered matches Some(h) ==> s.live.contains(h)
}

/// The allocated tables less the one that `prev` names.
pub open spec fn live_without(live: Set<SpiHandle>, prev: Option<SpiHandle>) -> Set<SpiHandle> {
    match prev {
        Some(old) => live.remove(old),
        None => live,
    }
}

/// Carrying out two lists of commands is carrying out the first, then the second.
proof fn lemma_run_append(s: NativeState, a: Seq<ApiCommand>, b: Seq<ApiCommand>)
    ensures
        run(s, a + b) == match run(s, a) {
            Some(t) => run(t, b),
            None => None,
        },
    decreases a.len(),
{
    if a.len() == 0 {
        assert(a + b =~= b);
    } else {
        assert((a + b).drop_first() =~= a.drop_first() + b);
        match step(s, a[0]) {
            Some(t) => lemma_run_append(t, a.drop_first(), b),
            None => {},
        }
    }
}

/// Registering a newly allocated table never faults on the native side: the new table is
/// handed over before the old one is freed, and afterwards the native API calls the new
/// table, the old one is freed, and nothing else changes.
pub proof fn lemma_register_is_safe(s: NativeState, prev: Option<SpiHandle>, spi: SpiHandle)
    requires
        in_sync(s, prev),
        s.live.contains(spi),
        prev != Some(spi),
    ensures
        run(s, register_commands(prev, spi)) == Some(
            NativeState { target: Some(spi), live: live_without(s.live, prev), released: false },
        ),
        in_sync(run(s, register_commands(prev, spi)).unwrap(), Some(spi)),
{
    let cmds = register_commands(prev, spi);
    let s1 = NativeState { target: Some(spi), live: s.live, released: false };
    assert(step(s, cmds[0]) == Some(s1));
    match prev {
        Some(old) => {
            let rest = seq![ApiCommand::FreeSpi(old)];
            let s2 = NativeState { target: Some(spi), live: s.live.remove(old), released: false };
            assert(cmds.drop_first() =~= rest);
            assert(rest.drop_first() =~= Seq::<ApiCommand>::empty());
            assert(run(s2, rest.drop_first()) == Some(s2));
            assert(step(s1, rest[0]) == Some(s2));
            assert(run(s1, rest) == Some(s2));
            assert(run(s, cmds) == Some(s2));
        },
        None => {
            assert(cmds.drop_first() =~= Seq::<ApiCommand>::empty());
            assert(run(s1, cmds.drop_first()) == Some(s1));
            assert(run(s, cmds) == Some(s1));
        },
    }
}

/// Tearing down never faults on the native side: the table is withdrawn before it is
/// freed, and the API object is released last, with no table left to call.
pub proof fn lemma_release_is_safe(s: NativeState, prev: Option<SpiHandle>)
    requires
        in_sync(s, prev),
    ensures
        run(s, release_commands(prev)) == Some(
            NativeState { target: None, live: live_without(s.live, prev), released: true },
        ),
{
    let cmds = release_commands(prev);
    match prev {
        Some(old) => {
            let s1 = NativeState { target: None, live: s.live, released: false };
            let s2 = NativeState { target: None, live: s.live.remove(old), released: false };
            assert(step(s, cmds[0]) == Some(s1));
            assert(cmds.drop_first()[0] == ApiCommand::FreeSpi(old));
            assert(step(s1, cmds.drop_first()[0]) == Some(s2));
            let last = seq![ApiCommand::ReleaseApi];
            let s3 = NativeState { target: None, live: s.live.remove(old), released: true };
            assert(cmds.drop_first().drop_first() =~= last);
            assert(last.drop_first() =~= Seq::<ApiCommand>::empty());
            assert(run(s3, last.drop_first()) == Some(s3));
            assert(run(s2, last) == Some(s3));
            assert(run(s1, cmds.drop_first()) == Some(s3));
            assert(run(s, cmds) == Some(s3));
        },
        None => {
            let s3 = NativeState { target: None, live: s.live, released: true };
            assert(cmds =~= seq![ApiCommand::ReleaseApi]);
            assert(cmds.drop_first() =~= Seq::<ApiCommand>::empty());
            assert(run(s3, cmds.drop_first()) == Some(s3));
            assert(run(s, cmds) == Some(s3));
        },
    }
}


/// The work done over a whole life of the API that starts with `prev` registered: each
/// table of `spis` registered in turn, then the teardown.
pub open spec fn lifecycle_commands(prev: Option<SpiHandle>, spis: Seq<SpiHandle>) -> Seq<ApiCommand>
    decreases spis.len(),
{
    if spis.len() == 0 {
        release_commands(prev)
    } else {
        register_commands(prev, spis[0]) + lifecycle_commands(Some(spis[0]), spis.drop_first())
    }
}

/// The tables that `prev` and `spis` name.
pub open spec fn handed_over(prev: Option<SpiHandle>, spis: Seq<SpiHandle>) -> Set<SpiHandle> {
    Set::new(|h: SpiHandle| prev == Some(h) || spis.contains(h))
}

/// Over a whole life of the API, when every table registered is newly allocated (distinct,
/// and distinct from the one registered at the start), the native side never faults: no
/// table is freed while the native API may call it or freed twice, the API is released
/// last with no table left to call, and exactly the tables handed over are freed.
pub proof fn lemma_lifecycle_is_safe(s: NativeState, prev: Option<SpiHandle>, spis: Seq<SpiHandle>)
    requires
        in_sync(s, prev),
        forall|i: int| 0 <= i < spis.len() ==> s.live.contains(#[trigger] spis[i]),
        forall|i: int| 0 <= i < spis.len() ==> prev != Some(#[trigger] spis[i]),
        forall|i: int, j: int| 0 <= i < j < spis.len() ==> spis[i] != spis[j],
    ensures
        run(s, lifecycle_commands(prev, spis)) == Some(
            NativeState { target: None, live: s.live.difference(handed_over(prev, spis)), released: true },
        ),
    decreases spis.len(),
{
    if spis.len() == 0 {
        lemma_release_is_safe(s, prev);
        assert(live_without(s.live, prev) =~= s.live.difference(handed_over(prev, spis)));
    } else {
        let spi = spis[0];
        let rest = spis.drop_first();
        lemma_register_is_safe(s, prev, spi);
        let s1 = NativeState { target: Some(spi), live: live_without(s.live, prev), released: false };
        assert forall|i: int| 0 <= i < rest.len() implies s1.live.contains(#[trigger] rest[i]) by {
            assert(rest[i] == spis[i + 1]);
        }
        assert forall|i: int| 0 <= i < rest.len() implies Some(spi) != Some(#[trigger] rest[i]) by {
            assert(rest[i] == spis[i + 1]);
        }
        lemma_lifecycle_is_safe(s1, Some(spi), rest);
        lemma_run_append(s, register_commands(prev, spi), lifecycle_commands(Some(spi), rest));
        assert forall|h: SpiHandle| #[trigger] handed_over(prev, spis).contains(h)
            == handed_over(Some(spi), rest).contains(h) || prev == Some(h) by {
            if spis.contains(h) && h != spi {
                let k = choose|k: int| 0 <= k < spis.len() && spis[k] == h;
                assert(rest[k - 1] == h);
            }
            if rest.contains(h) {
                let k = choose|k: int| 0 <= k < rest.len() && rest[k] == h;
                assert(spis[k + 1] == h);
            }
        }
        assert(s1.live.difference(handed_over(Some(spi), rest)) =~= s.live.difference(handed_over(prev, spis)));
    }
}


/// The native side once a newly allocated table `h` exists.
pub open spec fn allocate(s: NativeState, h: SpiHandle) -> NativeState {
    NativeState { target: s.target, live: s.live.insert(h), released: s.released }
}

/// Each table of `spis` allocated just before it is registered, in turn, while `prev` is
/// registered at the start; `None` if a command faults on the way.
pub open spec fn run_registrations(s: NativeState, prev: Option<SpiHandle>, spis: Seq<SpiHandle>) -> Option<NativeState>
    decreases spis.len(),
{
    if spis.len() == 0 {
        Some(s)
    } else {
        match run(allocate(s, spis[0]), register_commands(prev, spis[0])) {
            Some(t) => run_registrations(t, Some(spis[0]), spis.drop_first()),
            None => None,
        }
    }
}

/// The work that registering each table of `spis` in turn takes, `prev` registered at the start.
pub open spec fn registration_commands(prev: Option<SpiHandle>, spis: Seq<SpiHandle>) -> Seq<ApiCommand>
    decreases spis.len(),
{
    if spis.len() == 0 {
        Seq::empty()
    } else {
        register_commands(prev, spis[0]) + registration_commands(Some(spis[0]), spis.drop_first())
    }
}

/// The table registered after registering each table of `spis` in turn.
pub open spec fn registered_after(prev: Option<SpiHandle>, spis: Seq<SpiHandle>) -> Option<SpiHandle> {
    if spis.len() == 0 {
        prev
    } else {
        Some(spis.last())
    }
}

/// The tables that a list of commands frees, in order, each as often as it is freed.
pub open spec fn freed(cmds: Seq<ApiCommand>) -> Seq<SpiHandle>
    decreases cmds.len(),
{
    if cmds.len() == 0 {
        Seq::empty()
    } else {
        let rest = freed(cmds.drop_first());
        match cmds[0] {
            ApiCommand::FreeSpi(h) => seq![h] + rest,
            _ => rest,
        }
    }
}

/// The handle that `prev` names, as a list of at most one.
pub open spec fn handle_list(prev: Option<SpiHandle>) -> Seq<SpiHandle> {
    match prev {
        Some(h) => seq![h],
        None => Seq::empty(),
    }
}

proof fn lemma_freed_append(a: Seq<ApiCommand>, b: Seq<ApiCommand>)
    ensures
        freed(a + b) == freed(a) + freed(b),
    decreases a.len(),
{
    if a.len() == 0 {
        assert(a + b =~= b);
        assert(freed(a) + freed(b) =~= freed(b));
    } else {
        assert((a + b).drop_first() =~= a.drop_first() + b);
        lemma_freed_append(a.drop_first(), b);
        match a[0] {
            ApiCommand::FreeSpi(h) => assert(seq![h] + (freed(a.drop_first()) + freed(b))
                =~= (seq![h] + freed(a.drop_first())) + freed(b)),
            _ => {},
        }
    }
}

proof fn lemma_freed_register(prev: Option<SpiHandle>, spi: SpiHandle)
    ensures
        freed(register_commands(prev, spi)) == handle_list(prev),
{
    let cmds = register_commands(prev, spi);
    match prev {
        Some(old) => {
            let tail = seq![ApiCommand::FreeSpi(old)];
            assert(cmds.drop_first() =~= tail);
            assert(tail.drop_first() =~= Seq::<ApiCommand>::empty());
            assert(freed(tail.drop_first()) =~= Seq::<SpiHandle>::empty());
            assert(freed(tail) =~= seq![old]);
            assert(freed(cmds) =~= seq![old]);
        },
        None => {
            assert(cmds.drop_first() =~= Seq::<ApiCommand>::empty());
            assert(freed(cmds.drop_first()) =~= Seq::<SpiHandle>::empty());
            assert(freed(cmds) =~= Seq::<SpiHandle>::empty());
        },
    }
}

/// The state after any run of registrations before teardown, on a registry that holds
/// `prev` and a native side in step with it, when each table is allocated just before its
/// registration (so it is not among the tables `base` still allocated, and differs from
/// the one registered when it comes; an address freed earlier may come again):
/// no command faults; nothing is registered if and only if nothing was registered at the
/// start and no registration came; otherwise the latest table is registered, the native
/// side calls it and it is still allocated; every earlier table (the starting one
/// included) has been freed, in order, exactly once, and no other table has been freed.
pub proof fn lemma_registrations_state(
    s: NativeState,
    prev: Option<SpiHandle>,
    spis: Seq<SpiHandle>,
    base: Set<SpiHandle>,
)
    requires
        in_sync(s, prev),
        base == live_without(s.live, prev),
        forall|i: int| 0 <= i < spis.len() ==> !base.contains(#[trigger] spis[i]),
        spis.len() > 0 ==> prev != Some(spis[0]),
        forall|i: int| 0 < i < spis.len() ==> #[trigger] spis[i] != spis[i - 1],
    ensures
        run_registrations(s, prev, spis) == Some(NativeState {
            target: registered_after(prev, spis),
            live: if spis.len() == 0 { s.live } else { base.insert(spis.last()) },
            released: false,
        }),
        in_sync(run_registrations(s, prev, spis).unwrap(), registered_after(prev, spis)),
        registered_after(prev, spis) is None <==> (prev is None && spis.len() == 0),
        freed(registration_commands(prev, spis)) == if spis.len() == 0 {
            Seq::<SpiHandle>::empty()
        } else {
            handle_list(prev) + spis.drop_last()
        },
    decreases spis.len(),
{
    if spis.len() == 0 {
        assert(freed(registration_commands(prev, spis)) =~= Seq::<SpiHandle>::empty());
    } else {
        let spi = spis[0];
        let rest = spis.drop_first();
        let a = allocate(s, spi);
        assert(!s.live.contains(spi) || prev == Some(spi)) by {
            assert(!base.contains(spis[0]));
        }
        assert(in_sync(a, prev));
        lemma_register_is_safe(a, prev, spi);
        let s1 = NativeState { target: Some(spi), live: live_without(a.live, prev), released: false };
        assert(live_without(a.live, prev) =~= base.insert(spi));
        assert(live_without(s1.live, Some(spi)) =~= base);
        assert forall|i: int| 0 <= i < rest.len() implies !base.contains(#[trigger] rest[i]) by {
            assert(rest[i] == spis[i + 1]);
        }
        assert forall|i: int| 0 < i < rest.len() implies #[trigger] rest[i] != rest[i - 1] by {
            assert(rest[i] == spis[i + 1]);
            assert(rest[i - 1] == spis[i]);
        }
        if rest.len() > 0 {
            assert(rest[0] == spis[1]);
        }
        lemma_registrations_state(s1, Some(spi), rest, base);
        if rest.len() > 0 {
            assert(rest.last() == spis.last());
        } else {
            assert(s1.live =~= base.insert(spis.last()));
        }
        lemma_freed_append(register_commands(prev, spi), registration_commands(Some(spi), rest));
        lemma_freed_register(prev, spi);
        if rest.len() == 0 {
            assert(spis.drop_last() =~= Seq::<SpiHandle>::empty());
            assert(handle_list(prev) + Seq::<SpiHandle>::empty() =~= handle_list(prev));
        } else {
            assert(seq![spi] + rest.drop_last() =~= spis.drop_last());
            assert(handle_list(prev) + (handle_list(Some(spi)) + rest.drop_last())
                =~= handle_list(prev) + spis.drop_last());
        }
    }
}

/// A registration hands the new table over first, never hands over a null table, and frees
/// at most the table it replaces, after the handover: with a table registered it is exactly
/// "register the new one, then free the old one". Carried out from a native side in step
/// with the registry, the native API has a table to call after every one of its commands,
/// and that table is the new one.
pub proof fn lemma_register_keeps_a_table(s: NativeState, prev: Option<SpiHandle>, spi: SpiHandle)
    requires
        in_sync(s, prev),
        s.live.contains(spi),
        prev != Some(spi),
    ensures
        register_commands(prev, spi)[0] == ApiCommand::RegisterSpi(spi),
        forall|i: int| 0 <= i < register_commands(prev, spi).len()
            ==> #[trigger] register_commands(prev, spi)[i] != ApiCommand::UnregisterSpi,
        prev is None ==> register_commands(prev, spi) == seq![ApiCommand::RegisterSpi(spi)],
        prev matches Some(old) ==> register_commands(prev, spi)
            == seq![ApiCommand::RegisterSpi(spi), ApiCommand::FreeSpi(old)],
        forall|k: int| 1 <= k <= register_commands(prev, spi).len()
            ==> ((#[trigger] run(s, register_commands(prev, spi).take(k))) matches Some(t)
                && t.target == Some(spi)),
{
    let cmds = register_commands(prev, spi);
    let s1 = NativeState { target: Some(spi), live: s.live, released: false };
    assert(step(s, cmds[0]) == Some(s1));
    match prev {
        Some(old) => {
            assert(cmds =~= seq![ApiCommand::RegisterSpi(spi), ApiCommand::FreeSpi(old)]);
            let s2 = NativeState { target: Some(spi), live: s.live.remove(old), released: false };
            let one = cmds.take(1);
            assert(one.drop_first() =~= Seq::<ApiCommand>::empty());
            assert(run(s1, one.drop_first()) == Some(s1));
            assert(run(s, one) == Some(s1));
            let two = cmds.take(2);
            assert(two =~= cmds);
            let rest = seq![ApiCommand::FreeSpi(old)];
            assert(two.drop_first() =~= rest);
            assert(rest.drop_first() =~= Seq::<ApiCommand>::empty());
            assert(run(s2, rest.drop_first()) == Some(s2));
            assert(step(s1, rest[0]) == Some(s2));
            assert(run(s1, rest) == Some(s2));
            assert(run(s, two) == Some(s2));
            assert forall|k: int| 1 <= k <= cmds.len()
                implies ((#[trigger] run(s, cmds.take(k))) matches Some(t) && t.target == Some(spi)) by {
                if k == 1 {} else { assert(k == 2); }
            }
        },
        None => {
            assert(cmds =~= seq![ApiCommand::RegisterSpi(spi)]);
            let one = cmds.take(1);
            assert(one.drop_first() =~= Seq::<ApiCommand>::empty());
            assert(run(s1, one.drop_first()) == Some(s1));
            assert(run(s, one) == Some(s1));
        },
    }
}

} // verus!
