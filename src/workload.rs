//! Workload and image descriptors, and the worker invocation that creates a
//! container from a descriptor.

use crate::text::{join, join_texts, texts};
use vstd::prelude::*;

verus! {

/// A service of a compose file, as the worker describes it.
#[derive(Clone, Debug)]
pub struct DockerCompose {
    pub name: String,
    pub service: String,
    pub image: String,
    pub ports: String,
    pub container_name: String,
    pub hostname: String,
    pub build_context: String,
    pub dockerfile: String,
    pub environment: Vec<String>,
    pub volumes: Vec<String>,
    pub networks: Vec<String>,
    pub restart: String,
}

/// A local image, as the worker describes it.
#[derive(Clone, Debug)]
pub struct DockerImage {
    pub repository: String,
    pub tag: String,
    pub image_id: String,
    pub created: String,
    pub size: String,
}

/// A directory where the worker found a compose file.
#[derive(Clone, Debug)]
pub struct FilePath {
    pub filepath: String,
}

impl FilePath {
    /// The compose file inside the directory.
    pub fn compose_file(&self) -> (r: String)
        ensures
            r@ == self.filepath@ + "/docker-compose.yml"@,
    {
        let mut r = self.filepath.clone();
        r.append("/docker-compose.yml");
        r
    }
}

/// `flag value` when `value` is not empty, else nothing.
pub open spec fn text_flag(flag: Seq<char>, value: Seq<char>) -> Seq<Seq<char>> {
    if value.len() == 0 {
        Seq::empty()
    } else {
        seq![flag, value]
    }
}

/// `flag a,b,...` when `values` is not empty, else nothing.
pub open spec fn list_flag(flag: Seq<char>, values: Seq<String>) -> Seq<Seq<char>> {
    if values.len() == 0 {
        Seq::empty()
    } else {
        seq![flag, join(texts(values), ","@)]
    }
}

/// The container name: the explicit one, else `{stack}-{service}` when a
/// service is named, else none.
pub open spec fn name_flag(c: DockerCompose) -> Seq<Seq<char>> {
    if c.container_name@.len() > 0 {
        seq!["--name"@, c.container_name@]
    } else if c.service@.len() > 0 {
        seq!["--name"@, c.name@ + "-"@ + c.service@]
    } else {
        Seq::empty()
    }
}

/// The worker arguments that create and start a container for `c`.
pub open spec fn create_args(c: DockerCompose) -> Seq<Seq<char>> {
    seq!["create"@, "--image"@, c.image@, "--start"@]
        + name_flag(c)
        + text_flag("--hostname"@, c.hostname@)
        + text_flag("--ports"@, c.ports@)
        + list_flag("--env"@, c.environment@)
        + list_flag("--volumes"@, c.volumes@)
        + text_flag("--restart"@, c.restart@)
}

fn push_text(args: &mut Vec<String>, s: &str)
    ensures
        texts(final(args)@) == texts(old(args)@).push(s@),
{
    args.push(String::from_str(s));
    assert(texts(args@) =~= texts(old(args)@).push(s@));
}

fn push_flag(args: &mut Vec<String>, flag: &str, value: &str)
    ensures
        texts(final(args)@) == texts(old(args)@) + text_flag(flag@, value@),
{
    if !value.is_empty() {
        push_text(args, flag);
        push_text(args, value);
        assert(texts(args@) =~= texts(old(args)@) + text_flag(flag@, value@));
    } else {
        assert(texts(args@) =~= texts(old(args)@) + text_flag(flag@, value@));
    }
}

fn push_list_flag(args: &mut Vec<String>, flag: &str, values: &Vec<String>)
    ensures
        texts(final(args)@) == texts(old(args)@) + list_flag(flag@, values@),
{
    if values.len() > 0 {
        push_text(args, flag);
        let joined = join_texts(values, ",");
        push_text(args, joined.as_str());
    }
    assert(texts(args@) =~= texts(old(args)@) + list_flag(flag@, values@));
}

/// The identifier that telemetry for `c` is requested under: the explicit
/// container name, else the stack name.
pub open spec fn stream_id(c: DockerCompose) -> Seq<char> {
    if c.container_name@.len() == 0 {
        c.name@
    } else {
        c.container_name@
    }
}

impl DockerCompose {
    /// The identifier that telemetry for this service is requested under.
    pub fn stream_id(&self) -> (r: String)
        ensures
            r@ == stream_id(*self),
    {
        if self.container_name.as_str().is_empty() {
            self.name.clone()
        } else {
            self.container_name.clone()
        }
    }

    /// The worker arguments that create and start this service's container;
    /// a flag whose field is empty is left out.
    pub fn create_args(&self) -> (r: Vec<String>)
        ensures
            texts(r@) == create_args(*self),
    {
        let mut args: Vec<String> = Vec::new();
        push_text(&mut args, "create");
        push_text(&mut args, "--image");
        push_text(&mut args, self.image.as_str());
        push_text(&mut args, "--start");
        if !self.container_name.as_str().is_empty() {
            push_text(&mut args, "--name");
            push_text(&mut args, self.container_name.as_str());
        } else if !self.service.as_str().is_empty() {
            push_text(&mut args, "--name");
            let mut derived = self.name.clone();
            derived.append("-");
            derived.append(self.service.as_str());
            push_text(&mut args, derived.as_str());
        }
        push_flag(&mut args, "--hostname", self.hostname.as_str());
        push_flag(&mut args, "--ports", self.ports.as_str());
        push_list_flag(&mut args, "--env", &self.environment);
        push_list_flag(&mut args, "--volumes", &self.volumes);
        push_flag(&mut args, "--restart", self.restart.as_str());
        assert(texts(args@) =~= create_args(*self));
        args
    }
}

} // verus!
