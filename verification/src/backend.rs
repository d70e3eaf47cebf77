use vstd::prelude::*;
use crate::state::BackendChoice;

verus! {

/// The graphics API that an adapter reports it runs on.
#[derive(Debug, Clone, Copy, PartialEq, Eq, Structural)]
pub enum AdapterBackend {
    Empty,
    Vulkan,
    Metal,
    Dx12,
    Gl,
    BrowserWebGpu,
}

/// The adapter backend that a specific choice stands for; `Auto` stands for none.
pub open spec fn native_backend(c: BackendChoice) -> Option<AdapterBackend> {
    match c {
        BackendChoice::Auto => None,
        BackendChoice::Vulkan => Some(AdapterBackend::Vulkan),
        BackendChoice::Metal => Some(AdapterBackend::Metal),
        BackendChoice::Dx12 => Some(AdapterBackend::Dx12),
        BackendChoice::OpenGl => Some(AdapterBackend::Gl),
        BackendChoice::WebGpu => Some(AdapterBackend::BrowserWebGpu),
    }
}

/// An adapter already opened on `b` serves the choice `c`.
pub open spec fn choice_accepts(c: BackendChoice, b: AdapterBackend) -> bool {
    c == BackendChoice::Auto || native_backend(c) == Some(b)
}

/// Whether the adapter opened for the selector (on `backend`) can be kept
/// for the choice the user launched with.
pub fn choice_matches_backend(choice: BackendChoice, backend: AdapterBackend) -> (r: bool)
    ensures
        r == choice_accepts(choice, backend),
{
    match choice {
        BackendChoice::Auto => true,
        BackendChoice::Vulkan => backend == AdapterBackend::Vulkan,
        BackendChoice::Metal => backend == AdapterBackend::Metal,
        BackendChoice::Dx12 => backend == AdapterBackend::Dx12,
        BackendChoice::OpenGl => backend == AdapterBackend::Gl,
        BackendChoice::WebGpu => backend == AdapterBackend::BrowserWebGpu,
    }
}

/// The value of the backend environment variable that selects a choice.
pub open spec fn env_key_text(c: BackendChoice) -> Seq<char> {
    match c {
        BackendChoice::Auto => "auto"@,
        BackendChoice::Vulkan => "vulkan"@,
        BackendChoice::Dx12 => "dx12"@,
        BackendChoice::OpenGl => "gl"@,
        BackendChoice::Metal => "metal"@,
        BackendChoice::WebGpu => "webgpu"@,
    }
}

/// The choice that a value of the backend environment variable selects.
pub open spec fn choice_for_env_key(key: Seq<char>) -> Option<BackendChoice> {
    if key == "auto"@ {
        Some(BackendChoice::Auto)
    } else if key == "vulkan"@ {
        Some(BackendChoice::Vulkan)
    } else if key == "dx12"@ {
        Some(BackendChoice::Dx12)
    } else if key == "gl"@ {
        Some(BackendChoice::OpenGl)
    } else if key == "metal"@ {
        Some(BackendChoice::Metal)
    } else if key == "webgpu"@ {
        Some(BackendChoice::WebGpu)
    } else {
        None
    }
}

/// Whether two strings hold the same characters.
fn same_text(a: &str, b: &str) -> (r: bool)
    ensures
        r == (a@ == b@),
{
    let n = a.unicode_len();
    if n != b.unicode_len() {
        return false;
    }
    let mut i: usize = 0;
    while i < n
        invariant
            n == a@.len(),
            n == b@.len(),
            i <= n,
            forall|j: int| 0 <= j < i ==> a@[j] == b@[j],
        decreases n - i,
    {
        if a.get_char(i) != b.get_char(i) {
            return false;
        }
        i = i + 1;
    }
    assert(a@ =~= b@);
    true
}

impl BackendChoice {
    /// The value of the backend environment variable that restarts the
    /// program on this choice.
    pub fn env_key(self) -> (r: &'static str)
        ensures
            r@ == env_key_text(self),
    {
        match self {
            BackendChoice::Auto => "auto",
            BackendChoice::Vulkan => "vulkan",
            BackendChoice::Dx12 => "dx12",
            BackendChoice::OpenGl => "gl",
            BackendChoice::Metal => "metal",
            BackendChoice::WebGpu => "webgpu",
        }
    }

    /// The choice that a value of the backend environment variable forces,
    /// if it names one.
    pub fn from_env_key(key: &str) -> (r: Option<BackendChoice>)
        ensures
            r == choice_for_env_key(key@),
    {
        if same_text(key, "auto") {
            Some(BackendChoice::Auto)
        } else if same_text(key, "vulkan") {
            Some(BackendChoice::Vulkan)
        } else if same_text(key, "dx12") {
            Some(BackendChoice::Dx12)
        } else if same_text(key, "gl") {
            Some(BackendChoice::OpenGl)
        } else if same_text(key, "metal") {
            Some(BackendChoice::Metal)
        } else if same_text(key, "webgpu") {
            Some(BackendChoice::WebGpu)
        } else {
            None
        }
    }
}

/// Restarting on a choice reads the same choice back: the key written for a
/// choice selects exactly that choice.
pub proof fn lemma_env_key_round_trip(c: BackendChoice)
    ensures
        choice_for_env_key(env_key_text(c)) == Some(c),
{
    reveal_strlit("auto");
    reveal_strlit("vulkan");
    reveal_strlit("dx12");
    reveal_strlit("gl");
    reveal_strlit("metal");
    reveal_strlit("webgpu");
    // The six keys start with six different letters.
    assert("auto"@[0] == 'a');
    assert("vulkan"@[0] == 'v');
    assert("dx12"@[0] == 'd');
    assert("gl"@[0] == 'g');
    assert("metal"@[0] == 'm');
    assert("webgpu"@[0] == 'w');
}

/// `Auto` keeps any adapter; a specific choice keeps exactly the adapters of
/// its own backend.
pub proof fn lemma_match_exact(c: BackendChoice, b: AdapterBackend)
    ensures
        c == BackendChoice::Auto ==> choice_accepts(c, b),
        c != BackendChoice::Auto ==> (choice_accepts(c, b) <==> native_backend(c) == Some(b)),
        c != BackendChoice::Auto ==> native_backend(c) is Some,
{
}

/// Which adapters each choice keeps, choice by choice.
pub proof fn lemma_choice_accepts_table(b: AdapterBackend)
    ensures
        choice_accepts(BackendChoice::Auto, b),
        choice_accepts(BackendChoice::Vulkan, b) <==> b == AdapterBackend::Vulkan,
        choice_accepts(BackendChoice::Metal, b) <==> b == AdapterBackend::Metal,
        choice_accepts(BackendChoice::Dx12, b) <==> b == AdapterBackend::Dx12,
        choice_accepts(BackendChoice::OpenGl, b) <==> b == AdapterBackend::Gl,
        choice_accepts(BackendChoice::WebGpu, b) <==> b == AdapterBackend::BrowserWebGpu,
{
}

} // verus!
