//! The framebuffer set: one framebuffer for each swapchain image, in the
//! order of the images, so that the index that acquisition returns finds the
//! framebuffer of the acquired image.

use crate::pipeline::RenderPass;
use crate::swapchain::SwapchainImage;
use vstd::prelude::*;

verus! {

/// A framebuffer: a render pass and the one image that it draws into.
#[derive(Clone, Copy, Debug, PartialEq, Eq, Structural)]
pub struct Framebuffer {
    pub render_pass: RenderPass,
    pub attachment: SwapchainImage,
}

/// The framebuffer set of a render pass over a sequence of images.
pub open spec fn framebuffers_over(render_pass: RenderPass, images: Seq<SwapchainImage>) -> Seq<
    Framebuffer,
> {
    Seq::new(images.len(), |i: int| Framebuffer { render_pass, attachment: images[i] })
}

/// Builds the framebuffer set. The result depends on nothing but the two
/// arguments: building it again over the same images gives the same set.
pub fn create_frame_buffers(render_pass: RenderPass, images: &Vec<SwapchainImage>) -> (framebuffers:
    Vec<Framebuffer>)
    ensures
        framebuffers@ == framebuffers_over(render_pass, images@),
{
    let mut framebuffers: Vec<Framebuffer> = Vec::new();
    let mut i: usize = 0;
    while i < images.len()
        invariant
            0 <= i <= images@.len(),
            framebuffers@ == framebuffers_over(render_pass, images@.take(i as int)),
        decreases images@.len() - i,
    {
        framebuffers.push(Framebuffer { render_pass, attachment: images[i] });
        proof {
            assert(framebuffers@ =~= framebuffers_over(render_pass, images@.take(i as int + 1)));
        }
        i = i + 1;
    }
    proof {
        assert(images@.take(i as int) =~= images@);
    }
    framebuffers
}

/// The set has one framebuffer for each image, and the framebuffer at an
/// index draws into the image at that index.
pub proof fn framebuffers_correspond(render_pass: RenderPass, images: Seq<SwapchainImage>)
    ensures
        framebuffers_over(render_pass, images).len() == images.len(),
        forall|i: int|
            0 <= i < images.len() ==> {
                &&& (#[trigger] framebuffers_over(render_pass, images)[i]).attachment == images[i]
                &&& framebuffers_over(render_pass, images)[i].render_pass == render_pass
            },
{
}

} // verus!
