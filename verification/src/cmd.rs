use vstd::prelude::*;

use crate::container::ContainerManager;
use vstd::string::StringExecFns;

verus! {


/// Push one string, tracking the deep view.
pub(crate) fn push_string(v: &mut Vec<String>, s: String)
    ensures
        final(v).deep_view() == old(v).deep_view().push(s@),
{
    let ghost sv = s@;
    v.push(s);
    assert forall|j: int| 0 <= j < v@.len() implies v.deep_view()[j] == old(v).deep_view().push(
        sv,
    )[j] by {
        if j < old(v)@.len() {
            assert(v@[j] == old(v)@[j]);
        }
    }
    assert(v.deep_view() =~= old(v).deep_view().push(sv));
}

/// Copy an argument list so a plan can carry it.
pub(crate) fn clone_args(v: &Vec<String>) -> (r: Vec<String>)
    ensures
        r.deep_view() == v.deep_view(),
{
    let mut out: Vec<String> = Vec::new();
    assert(out.deep_view() =~= Seq::<Seq<char>>::empty());
    let n = v.len();
    for i in 0..n
        invariant
            n == v@.len(),
            out.deep_view() =~= v.deep_view().take(i as int),
    {
        assert(v.deep_view()[i as int] == v@[i as int]@);
        push_string(&mut out, v[i].clone());
        assert(out.deep_view() =~= v.deep_view().take(i as int + 1));
    }
    assert(v.deep_view().take(n as int) =~= v.deep_view());
    out
}

/// Utility for accumulating the argument list of one external command.
pub struct ArgBuilder {
    pub args: Vec<String>,
}

impl ArgBuilder {
    pub fn new() -> (r: Self)
        ensures
            r.args.deep_view() == Seq::<Seq<char>>::empty(),
    {
        let r = ArgBuilder { args: Vec::new() };
        assert(r.args.deep_view() =~= Seq::<Seq<char>>::empty());
        r
    }

    pub fn from(args: &[&str]) -> (r: Self)
        ensures
            r.args.deep_view() == args.deep_view(),
    {
        let mut builder = ArgBuilder::new();
        builder.extend(args);
        builder
    }

    pub fn add(&mut self, arg: &str)
        ensures
            final(self).args.deep_view() == old(self).args.deep_view().push(arg@),
    {
        push_string(&mut self.args, arg.to_owned());
    }

    pub fn add_string(&mut self, arg: String)
        ensures
            final(self).args.deep_view() == old(self).args.deep_view().push(arg@),
    {
        push_string(&mut self.args, arg);
    }

    pub fn extend(&mut self, args: &[&str])
        ensures
            final(self).args.deep_view() == old(self).args.deep_view() + args.deep_view(),
    {
        let n = args.len();
        assert(args.deep_view().len() == args@.len());
        for i in 0..n
            invariant
                n == args@.len(),
                self.args.deep_view() =~= old(self).args.deep_view() + args.deep_view().take(
                    i as int,
                ),
        {
            let a: &str = args[i];
            assert(args.deep_view()[i as int] == a@);
            push_string(&mut self.args, a.to_owned());
            assert(self.args.deep_view() =~= old(self).args.deep_view() + args.deep_view().take(
                i as int + 1,
            ));
        }
        assert(args.deep_view().take(n as int) =~= args.deep_view());
    }
}

/// What one `run` invocation of the engine will say, as a function of the
/// builder's fields: base verb, flags (interactive before remove-on-exit),
/// the optional container name, the volumes in append order, the image, and
/// the trailing arguments.
pub open spec fn spec_run_command(
    it: bool,
    rm: bool,
    name: Option<Seq<char>>,
    volumes: Seq<Seq<char>>,
    image: Seq<char>,
    args: Seq<Seq<char>>,
) -> Seq<Seq<char>> {
    seq!["run"@] + (if it {
        seq!["-it"@]
    } else {
        Seq::empty()
    }) + (if rm {
        seq!["--rm"@]
    } else {
        Seq::empty()
    }) + (match name {
        Some(n) => seq!["--name="@ + n],
        None => Seq::empty(),
    }) + volumes.map_values(|v: Seq<char>| "--volume="@ + v) + seq![image] + args
}

/// Accumulates the options of one container `run` invocation and materializes
/// the argument list.  `build` is pure: it reads the builder and never changes
/// it, so repeated builds of one builder agree.
pub struct RunCommandBuilder {
    pub manager: ContainerManager,
    pub image: String,
    pub rm: bool,
    pub it: bool,
    pub volumes: Vec<String>,
    pub name: Option<String>,
    pub args: Vec<String>,
}

impl RunCommandBuilder {
    pub fn new(manager: ContainerManager, image: &str) -> (r: Self)
        ensures
            r.manager == manager,
            r.image@ == image@,
            !r.rm,
            !r.it,
            r.volumes.deep_view() == Seq::<Seq<char>>::empty(),
            r.name is None,
            r.args.deep_view() == Seq::<Seq<char>>::empty(),
    {
        let r = RunCommandBuilder {
            manager,
            image: image.to_owned(),
            rm: false,
            it: false,
            volumes: Vec::new(),
            name: None,
            args: Vec::new(),
        };
        assert(r.volumes.deep_view() =~= Seq::<Seq<char>>::empty());
        assert(r.args.deep_view() =~= Seq::<Seq<char>>::empty());
        r
    }

    /// Remove the container when it exits.
    pub fn rm(&mut self)
        ensures
            *final(self) == (RunCommandBuilder { rm: true, ..*old(self) }),
    {
        self.rm = true;
    }

    /// Run interactively with a terminal attached.
    pub fn it(&mut self)
        ensures
            *final(self) == (RunCommandBuilder { it: true, ..*old(self) }),
    {
        self.it = true;
    }

    pub fn name(&mut self, name: &str)
        ensures
            final(self).name matches Some(n) && n@ == name@,
            final(self).manager == old(self).manager,
            final(self).image == old(self).image,
            final(self).rm == old(self).rm,
            final(self).it == old(self).it,
            final(self).volumes == old(self).volumes,
            final(self).args == old(self).args,
    {
        self.name = Some(name.to_owned());
    }

    pub fn arg(&mut self, arg: &str)
        ensures
            final(self).args.deep_view() == old(self).args.deep_view().push(arg@),
            final(self).manager == old(self).manager,
            final(self).image == old(self).image,
            final(self).rm == old(self).rm,
            final(self).it == old(self).it,
            final(self).volumes == old(self).volumes,
            final(self).name == old(self).name,
    {
        push_string(&mut self.args, arg.to_owned());
    }

    pub fn args(&mut self, args: &[&str])
        ensures
            final(self).args.deep_view() == old(self).args.deep_view() + args.deep_view(),
            final(self).manager == old(self).manager,
            final(self).image == old(self).image,
            final(self).rm == old(self).rm,
            final(self).it == old(self).it,
            final(self).volumes == old(self).volumes,
            final(self).name == old(self).name,
    {
        let n = args.len();
        for i in 0..n
            invariant
                n == args@.len(),
                self.args.deep_view() =~= old(self).args.deep_view() + args.deep_view().take(
                    i as int,
                ),
                self.manager == old(self).manager,
                self.image == old(self).image,
                self.rm == old(self).rm,
                self.it == old(self).it,
                self.volumes == old(self).volumes,
                self.name == old(self).name,
        {
            let a: &str = args[i];
            assert(args.deep_view()[i as int] == a@);
            push_string(&mut self.args, a.to_owned());
            assert(self.args.deep_view() =~= old(self).args.deep_view() + args.deep_view().take(
                i as int + 1,
            ));
        }
        assert(args.deep_view().take(n as int) =~= args.deep_view());
    }

    pub fn volumes(&mut self, volumes: &[&str])
        ensures
            final(self).volumes.deep_view() == old(self).volumes.deep_view() + volumes.deep_view(),
            final(self).manager == old(self).manager,
            final(self).image == old(self).image,
            final(self).rm == old(self).rm,
            final(self).it == old(self).it,
            final(self).args == old(self).args,
            final(self).name == old(self).name,
    {
        let n = volumes.len();
        for i in 0..n
            invariant
                n == volumes@.len(),
                self.volumes.deep_view() =~= old(self).volumes.deep_view()
                    + volumes.deep_view().take(i as int),
                self.manager == old(self).manager,
                self.image == old(self).image,
                self.rm == old(self).rm,
                self.it == old(self).it,
                self.args == old(self).args,
                self.name == old(self).name,
        {
            let v: &str = volumes[i];
            assert(volumes.deep_view()[i as int] == v@);
            push_string(&mut self.volumes, v.to_owned());
            assert(self.volumes.deep_view() =~= old(self).volumes.deep_view()
                + volumes.deep_view().take(i as int + 1));
        }
        assert(volumes.deep_view().take(n as int) =~= volumes.deep_view());
    }

    pub fn volumes_vec(&mut self, volumes: &Vec<String>)
        ensures
            final(self).volumes.deep_view() == old(self).volumes.deep_view()
                + volumes.deep_view(),
            final(self).manager == old(self).manager,
            final(self).image == old(self).image,
            final(self).rm == old(self).rm,
            final(self).it == old(self).it,
            final(self).args == old(self).args,
            final(self).name == old(self).name,
    {
        let n = volumes.len();
        for i in 0..n
            invariant
                n == volumes@.len(),
                self.volumes.deep_view() =~= old(self).volumes.deep_view()
                    + volumes.deep_view().take(i as int),
                self.manager == old(self).manager,
                self.image == old(self).image,
                self.rm == old(self).rm,
                self.it == old(self).it,
                self.args == old(self).args,
                self.name == old(self).name,
        {
            assert(volumes.deep_view()[i as int] == volumes@[i as int]@);
            push_string(&mut self.volumes, volumes[i].clone());
            assert(self.volumes.deep_view() =~= old(self).volumes.deep_view()
                + volumes.deep_view().take(i as int + 1));
        }
        assert(volumes.deep_view().take(n as int) =~= volumes.deep_view());
    }

    /// What `build` returns for this builder.
    pub open spec fn spec_build(&self) -> Seq<Seq<char>> {
        spec_run_command(
            self.it,
            self.rm,
            match self.name {
                Some(n) => Some(n@),
                None => None,
            },
            self.volumes.deep_view(),
            self.image@,
            self.args.deep_view(),
        )
    }

    /// Materialize the argument list of the invocation.  The builder is not
    /// consumed: building twice yields identical argument lists.
    pub fn build(&self) -> (r: Vec<String>)
        ensures
            r.deep_view() == self.spec_build(),
    {
        let mut out = ArgBuilder::new();
        out.add("run");
        if self.it {
            out.add("-it");
        }
        if self.rm {
            out.add("--rm");
        }
        match &self.name {
            Some(name) => {
                out.add_string("--name=".to_owned().concat(name.as_str()));
            },
            None => {},
        }
        let ghost head = seq!["run"@] + (if self.it {
            seq!["-it"@]
        } else {
            Seq::<Seq<char>>::empty()
        }) + (if self.rm {
            seq!["--rm"@]
        } else {
            Seq::<Seq<char>>::empty()
        }) + (match &self.name {
            Some(n) => seq!["--name="@ + n@],
            None => Seq::<Seq<char>>::empty(),
        });
        assert(out.args.deep_view() =~= head);
        let n = self.volumes.len();
        for i in 0..n
            invariant
                n == self.volumes@.len(),
                out.args.deep_view() =~= head + self.volumes.deep_view().take(i as int).map_values(
                    |v: Seq<char>| "--volume="@ + v,
                ),
        {
            out.add_string("--volume=".to_owned().concat(self.volumes[i].as_str()));
            assert(self.volumes.deep_view().take(i as int + 1).map_values(
                |v: Seq<char>| "--volume="@ + v,
            ) =~= self.volumes.deep_view().take(i as int).map_values(
                |v: Seq<char>| "--volume="@ + v,
            ).push("--volume="@ + self.volumes.deep_view()[i as int]));
            assert(out.args.deep_view() =~= head + self.volumes.deep_view().take(
                i as int + 1,
            ).map_values(|v: Seq<char>| "--volume="@ + v));
        }
        assert(self.volumes.deep_view().take(n as int) =~= self.volumes.deep_view());
        out.add(self.image.as_str());
        let m = self.args.len();
        let ghost mid = head + self.volumes.deep_view().map_values(|v: Seq<char>| "--volume="@ + v)
            + seq![self.image@];
        assert(out.args.deep_view() =~= mid);
        for i in 0..m
            invariant
                m == self.args@.len(),
                out.args.deep_view() =~= mid + self.args.deep_view().take(i as int),
        {
            out.add_string(self.args[i].clone());
            assert(self.args.deep_view()[i as int] == self.args@[i as int]@);
            assert(out.args.deep_view() =~= mid + self.args.deep_view().take(i as int + 1));
        }
        assert(self.args.deep_view().take(m as int) =~= self.args.deep_view());
        assert(out.args.deep_view() =~= self.spec_build());
        out.args
    }
}

/// Two builders holding the same options build the same argument list, no
/// matter when or how often `build` is called.
pub proof fn lemma_build_deterministic(a: &RunCommandBuilder, b: &RunCommandBuilder)
    requires
        a.it == b.it,
        a.rm == b.rm,
        match (a.name, b.name) {
            (Some(an), Some(bn)) => an@ == bn@,
            (None, None) => true,
            _ => false,
        },
        a.volumes.deep_view() == b.volumes.deep_view(),
        a.image@ == b.image@,
        a.args.deep_view() == b.args.deep_view(),
    ensures
        a.spec_build() == b.spec_build(),
{
}

} // verus!
