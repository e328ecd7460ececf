use vstd::prelude::*;

use crate::command::{push_text, texts, Invocation, InvocationView};

verus! {

/// Loads the kernel facility behind the device node; loading it again is no failure.
pub fn load_module_command() -> (r: Invocation)
    ensures
        r@ == (InvocationView { program: "modprobe"@, args: seq!["nbd"@] }),
{
    let mut args: Vec<String> = Vec::new();
    push_text(&mut args, "nbd");
    assert(texts(args@) =~= seq!["nbd"@]);
    Invocation::new("modprobe", args)
}

/// The command that exposes the image at `image` through `device`, reading it
/// in the declared `format`.
pub open spec fn connect_view(image: Seq<char>, format: Seq<char>, device: Seq<char>) -> InvocationView {
    InvocationView {
        program: "qemu-nbd"@,
        args: seq!["--format"@, format, "--connect"@, device, image],
    }
}

/// The command that releases `device`.
pub open spec fn disconnect_view(device: Seq<char>) -> InvocationView {
    InvocationView { program: "qemu-nbd"@, args: seq!["--disconnect"@, device] }
}

/// Exposes the image file at `image_path` as the block device `device`. The
/// format is always passed, never guessed from the file.
pub fn connect_command(image_path: &str, format: &str, device: &str) -> (r: Invocation)
    ensures
        r@ == connect_view(image_path@, format@, device@),
{
    let mut args: Vec<String> = Vec::new();
    push_text(&mut args, "--format");
    push_text(&mut args, format);
    push_text(&mut args, "--connect");
    push_text(&mut args, device);
    push_text(&mut args, image_path);
    assert(texts(args@) =~= seq!["--format"@, format@, "--connect"@, device@, image_path@]);
    Invocation::new("qemu-nbd", args)
}

/// Releases the block device `device`.
pub fn disconnect_command(device: &str) -> (r: Invocation)
    ensures
        r@ == disconnect_view(device@),
{
    let mut args: Vec<String> = Vec::new();
    push_text(&mut args, "--disconnect");
    push_text(&mut args, device);
    assert(texts(args@) =~= seq!["--disconnect"@, device@]);
    Invocation::new("qemu-nbd", args)
}

/// The effect of one command on the active block-device binding: a connect
/// binds the device it names, a disconnect of the bound device releases it, and
/// a disconnect of a device that is not bound changes nothing.
pub open spec fn binding_effect(bound: Option<Seq<char>>, inv: InvocationView) -> Option<Seq<char>> {
    if inv.program == "qemu-nbd"@ && inv.args.len() == 5 && inv.args[0] == "--format"@
        && inv.args[2] == "--connect"@ {
        Some(inv.args[3])
    } else if inv.program == "qemu-nbd"@ && inv.args.len() == 2 && inv.args[0] == "--disconnect"@
        && bound == Some(inv.args[1]) {
        None
    } else {
        bound
    }
}

/// Whatever the image format, attaching an image and then detaching the device
/// leaves no binding active, and detaching once more still leaves none.
pub proof fn lemma_attach_detach(image: Seq<char>, format: Seq<char>, device: Seq<char>)
    ensures
        binding_effect(None, connect_view(image, format, device)) == Some(device),
        binding_effect(
            binding_effect(None, connect_view(image, format, device)),
            disconnect_view(device),
        ) is None,
        binding_effect(None, disconnect_view(device)) is None,
{
    reveal_strlit("--format");
    reveal_strlit("--disconnect");
    assert("--disconnect"@[2] != "--format"@[2]);
}

} // verus!
