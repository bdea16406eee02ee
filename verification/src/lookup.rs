//! Finding programs along a search path.

use vstd::prelude::*;

use crate::text;

verus! {

/// The search path that cron gives to a job.
pub const CRON_PATH: &'static str = "/usr/bin:/bin";

/// The shell that cron gives to a job.
pub const CRON_SHELL: &'static str = "/bin/sh";

/// The search path that systemd gives to a service.
pub const SYSTEMD_PATH: &'static str = "/usr/local/sbin:/usr/local/bin:/usr/sbin:/usr/bin:/sbin:/bin";

/// The search path that launchd gives to a job.
pub const LAUNCHD_PATH: &'static str = "/usr/bin:/bin:/usr/sbin:/sbin";

/// A path that begins at the root.
pub open spec fn is_absolute(path: Seq<char>) -> bool {
    path.len() > 0 && path[0] == '/'
}

/// The path of `name` below the directory `base`.
pub open spec fn below(base: Seq<char>, name: Seq<char>) -> Seq<char> {
    if is_absolute(name) || base.len() == 0 {
        name
    } else if base.last() == '/' {
        base + name
    } else {
        base + seq!['/'] + name
    }
}

/// Where a program may stand along a search path, in the order of the search.
pub open spec fn along(path: Seq<char>, name: Seq<char>) -> Seq<Seq<char>> {
    text::pieces(path, ':').map_values(|dir: Seq<char>| below(dir, name))
}

/// Where cron looks for a program: at the very place, if the name has a slash,
/// and along cron's search path otherwise.
pub open spec fn cron_places(name: Seq<char>) -> Seq<Seq<char>> {
    if name.contains('/') {
        seq![name]
    } else {
        along(CRON_PATH@, name)
    }
}

/// The first of the places at which there is a file.
pub open spec fn first_file(places: Seq<Seq<char>>, files: Seq<Seq<char>>) -> Option<Seq<char>>
    decreases places.len(),
{
    if places.len() == 0 {
        None
    } else if files.contains(places[0]) {
        Some(places[0])
    } else {
        first_file(places.drop_first(), files)
    }
}

/// Cron finds a program of this name.
pub open spec fn cron_finds(name: Seq<char>, files: Seq<Seq<char>>) -> bool {
    first_file(cron_places(name), files) is Some
}

/// Where the program of this name stands along the search path, if there is a
/// search path and a file of that name along it.
pub open spec fn found_on_path(path: Option<Seq<char>>, name: Seq<char>, files: Seq<Seq<char>>) -> Option<Seq<char>> {
    match path {
        Some(path) => first_file(along(path, name), files),
        None => None,
    }
}

/// The text of an optional string.
pub open spec fn optional(s: Option<String>) -> Option<Seq<char>> {
    match s {
        Some(s) => Some(s@),
        None => None,
    }
}

/// Whether a path begins at the root.
pub fn absolute(path: &str) -> (r: bool)
    ensures
        r == is_absolute(path@),
{
    let list = text::characters(path);
    list.len() > 0 && list[0] == '/'
}

/// The path of `name` below the directory `base`.
pub fn join_path(base: &str, name: &str) -> (r: String)
    ensures
        r@ == below(base@, name@),
{
    let list = text::characters(base);
    let size: usize = list.len();
    if absolute(name) || size == 0 {
        name.to_owned()
    } else if list[size - 1] == '/' {
        base.to_owned().concat(name)
    } else {
        let mut r = base.to_owned();
        r.push('/');
        proof {
            assert(r@ =~= base@ + seq!['/']);
        }
        r.concat(name)
    }
}

/// Lists where a program may stand along a search path.
pub fn places_along(path: &str, name: &str) -> (places: Vec<String>)
    ensures
        text::texts(places@) == along(path@, name@),
{
    let dirs = text::split(path, ':');
    let mut places: Vec<String> = Vec::new();
    let mut i: usize = 0;
    while i < dirs.len()
        invariant
            i == places@.len() <= dirs@.len(),
            forall|j: int| 0 <= j < i ==> (#[trigger] places@[j])@ == below(dirs@[j]@, name@),
        decreases dirs@.len() - i,
    {
        places.push(join_path(dirs[i].as_str(), name));
        i = i + 1;
    }
    proof {
        assert forall|j: int| 0 <= j < places@.len() implies text::texts(places@)[j] == along(path@, name@)[j] by {
            assert(text::texts(dirs@)[j] == dirs@[j]@);
        }
        assert(text::texts(dirs@).len() == dirs@.len());
        assert(text::texts(places@) =~= along(path@, name@));
    }
    places
}

/// Lists where cron looks for a program.
pub fn places_for_cron(name: &str) -> (places: Vec<String>)
    ensures
        text::texts(places@) == cron_places(name@),
{
    if text::has_char(name, '/') {
        let mut places: Vec<String> = Vec::new();
        places.push(name.to_owned());
        proof {
            assert(text::texts(places@) =~= seq![name@]);
        }
        places
    } else {
        places_along(CRON_PATH, name)
    }
}

fn first_listed(places: &Vec<String>, files: &Vec<String>) -> (r: Option<String>)
    ensures
        optional(r) == first_file(text::texts(places@), text::texts(files@)),
{
    let mut i: usize = 0;
    proof {
        assert(text::texts(places@).skip(0) =~= text::texts(places@));
    }
    while i < places.len()
        invariant
            i <= places@.len(),
            first_file(text::texts(places@), text::texts(files@)) == first_file(
                text::texts(places@).skip(i as int),
                text::texts(files@),
            ),
        decreases places@.len() - i,
    {
        proof {
            assert(text::texts(places@).skip(i as int)[0] == places@[i as int]@);
            assert(text::texts(places@).skip(i as int).drop_first() =~= text::texts(places@).skip(i + 1));
        }
        if text::is_listed(files, places[i].as_str()) {
            return Some(places[i].clone());
        }
        i = i + 1;
    }
    None
}

/// Whether cron finds a program of this name. `files` lists the places that
/// hold a file.
pub fn is_cron_path_executable(name: &str, files: &Vec<String>) -> (r: bool)
    ensures
        r == cron_finds(name@, text::texts(files@)),
{
    let places = places_for_cron(name);
    first_listed(&places, files).is_some()
}

/// Finds a program along the search path. `files` lists the places that hold a
/// file.
pub fn find_on_path(path: &Option<String>, name: &str, files: &Vec<String>) -> (r: Option<String>)
    ensures
        optional(r) == found_on_path(optional(*path), name@, text::texts(files@)),
{
    match path {
        Some(path) => {
            let places = places_along(path.as_str(), name);
            first_listed(&places, files)
        },
        None => None,
    }
}

/// Whether the Docker client is on the search path. `files` lists the places
/// that hold a file.
pub fn docker_available(path: &Option<String>, files: &Vec<String>) -> (r: bool)
    ensures
        r == (found_on_path(optional(*path), "docker"@, text::texts(files@)) is Some),
{
    find_on_path(path, "docker", files).is_some()
}

/// Cron finds a program exactly if one of the places it looks at holds a file.
pub proof fn cron_finds_a_file(name: Seq<char>, files: Seq<Seq<char>>)
    ensures
        cron_finds(name, files) <==> exists|i: int|
            0 <= i < cron_places(name).len() && files.contains(#[trigger] cron_places(name)[i]),
{
    first_file_is_first(cron_places(name), files);
}

/// The file that a search finds is the one at the earliest place that holds a
/// file, and there is none only if no place holds one.
pub proof fn first_file_is_first(places: Seq<Seq<char>>, files: Seq<Seq<char>>)
    ensures
        match first_file(places, files) {
            Some(place) => files.contains(place) && exists|i: int|
                0 <= i < places.len() && place == #[trigger] places[i] && forall|j: int|
                    0 <= j < i ==> !files.contains(#[trigger] places[j]),
            None => forall|i: int| 0 <= i < places.len() ==> !files.contains(#[trigger] places[i]),
        },
    decreases places.len(),
{
    if places.len() > 0 {
        if files.contains(places[0]) {
            assert(places[0] == places[0]);
        } else {
            let rest = places.drop_first();
            first_file_is_first(rest, files);
            match first_file(rest, files) {
                Some(place) => {
                    let i = choose|i: int|
                        0 <= i < rest.len() && place == #[trigger] rest[i] && forall|j: int|
                            0 <= j < i ==> !files.contains(#[trigger] rest[j]);
                    assert(place == places[i + 1]);
                    assert forall|j: int| 0 <= j < i + 1 implies !files.contains(#[trigger] places[j]) by {
                        if j > 0 {
                            assert(places[j] == rest[j - 1]);
                        }
                    }
                },
                None => {
                    assert forall|i: int| 0 <= i < places.len() implies !files.contains(#[trigger] places[i]) by {
                        if i > 0 {
                            assert(places[i] == rest[i - 1]);
                        }
                    }
                },
            }
        }
    }
}

/// A path begins at the root exactly if it begins with a slash.
pub proof fn absolute_paths_begin_with_a_slash(path: Seq<char>)
    ensures
        is_absolute(path) <==> "/"@.is_prefix_of(path),
{
    reveal_strlit("/");
    if is_absolute(path) {
        assert(path.subrange(0, 1) =~= "/"@);
    }
    if "/"@.is_prefix_of(path) {
        assert(path[0] == "/"@[0]);
    }
}

/// One slash parts a directory from a name below it, whether or not the
/// directory is written with a slash at its end. A name that begins at the root
/// is no name below a directory, and below no directory a name is itself.
pub proof fn one_slash_below_a_directory(base: Seq<char>, name: Seq<char>)
    ensures
        !is_absolute(name) ==> below(base + "/"@, name) == base + "/"@ + name,
        !is_absolute(name) && base.len() > 0 && base.last() != '/' ==> below(base, name) == base + "/"@ + name,
        is_absolute(name) || base.len() == 0 ==> below(base, name) == name,
{
    reveal_strlit("/");
    assert("/"@ =~= seq!['/']);
    assert((base + "/"@).last() == '/');
}

/// A search path is searched directory by directory, from its front on.
pub proof fn search_goes_from_the_front(dir: Seq<char>, rest: Seq<char>, name: Seq<char>)
    requires
        !dir.contains(':'),
    ensures
        along(dir + ":"@ + rest, name) == seq![below(dir, name)] + along(rest, name),
        along(dir, name) == seq![below(dir, name)],
{
    reveal_strlit(":");
    assert(":"@ =~= seq![':']);
    text::pieces_from_the_front(dir, rest, ':');
    assert(along(dir + ":"@ + rest, name) =~= seq![below(dir, name)] + along(rest, name));
    assert(along(dir, name) =~= seq![below(dir, name)]);
}

/// Cron takes a name with a slash for a path, and looks for any other in
/// `/usr/bin` and then in `/bin`.
pub proof fn cron_looks_in_two_directories(name: Seq<char>)
    ensures
        name.contains('/') ==> cron_places(name) == seq![name],
        !name.contains('/') ==> cron_places(name) == seq!["/usr/bin/"@ + name, "/bin/"@ + name],
{
    reveal_strlit("/usr/bin:/bin");
    reveal_strlit("/usr/bin");
    reveal_strlit("/bin");
    reveal_strlit("/usr/bin/");
    reveal_strlit("/bin/");
    reveal_strlit(":");
    reveal_strlit("/");
    if !name.contains('/') {
        assert(CRON_PATH@ =~= "/usr/bin"@ + ":"@ + "/bin"@);
        search_goes_from_the_front("/usr/bin"@, "/bin"@, name);
        search_goes_from_the_front("/bin"@, Seq::empty(), name);
        if is_absolute(name) {
            assert(name[0] == '/');
        }
        one_slash_below_a_directory("/usr/bin"@, name);
        one_slash_below_a_directory("/bin"@, name);
        assert("/usr/bin"@ + "/"@ =~= "/usr/bin/"@);
        assert("/bin"@ + "/"@ =~= "/bin/"@);
        assert(cron_places(name) =~= seq!["/usr/bin/"@ + name, "/bin/"@ + name]);
    }
}

/// A program is found at the first place along the search path that holds a
/// file, and it is not found only if there is no search path or no such place.
pub proof fn first_hit_along_the_path(path: Seq<char>, name: Seq<char>, files: Seq<Seq<char>>)
    ensures
        match found_on_path(Some(path), name, files) {
            Some(place) => files.contains(place) && exists|i: int|
                0 <= i < along(path, name).len() && place == #[trigger] along(path, name)[i] && forall|j: int|
                    0 <= j < i ==> !files.contains(#[trigger] along(path, name)[j]),
            None => forall|i: int| 0 <= i < along(path, name).len() ==> !files.contains(#[trigger] along(path, name)[i]),
        },
        found_on_path(None, name, files) is None,
{
    first_file_is_first(along(path, name), files);
}

/// The text of an optional string is there exactly if the string is, and is its
/// text.
pub proof fn optional_texts(s: Option<String>)
    ensures
        s is Some ==> optional(s) == Some(s->0@),
        s is None ==> optional(s) is None,
{
}

} // verus!
