//! The fast receiver: frames are read back on the CPU and uploaded either
//! as they are (BGRA) or through a compute shader that swaps them to RGBA.
//! This module holds the receiver's state and everything the converter
//! computes before it touches the GPU.

use vstd::prelude::*;
use crate::error::SyphonError;
use crate::utils::{decimal, decimal_text};

verus! {

/// The texture format a fast receiver delivers.
#[derive(Debug, Clone, Copy, PartialEq, Eq)]
pub enum InputFormat {
    /// 8-bit blue, green, red, alpha: the frame as Syphon shares it.
    Bgra,
    /// 8-bit red, green, blue, alpha: converted on the GPU.
    Rgba,
}

/// Seconds over which received frames are counted before the rate is
/// reported and the count starts again.
pub const FPS_WINDOW_SECS: u64 = 5;

/// The client a receiver holds together with the name of the server it was
/// connected to.
struct ServerLink<C> {
    client: Option<C>,
    connected_server: Option<String>,
}

impl<C> ServerLink<C> {
    /// A link that holds a client always knows the server's name.
    #[verifier::type_invariant]
    spec fn named_while_connected(&self) -> bool {
        self.client is Some ==> self.connected_server is Some
    }
}

/// A fast receiver's state, generic over the client handle `C`, the
/// converter `V` and the texture type `T`.
pub struct SyphonWgpuInputFast<C, V, T> {
    link: ServerLink<C>,
    converter: Option<V>,
    format: InputFormat,
    frame_count: u64,
    bgra_texture: Option<T>,
    bgra_width: u32,
    bgra_height: u32,
}

impl<C, V, T> SyphonWgpuInputFast<C, V, T> {
    pub closed spec fn spec_client(&self) -> Option<C> {
        self.link.client
    }

    pub closed spec fn spec_converter(&self) -> Option<V> {
        self.converter
    }

    pub closed spec fn spec_format(&self) -> InputFormat {
        self.format
    }

    pub closed spec fn spec_server(&self) -> Option<Seq<char>> {
        match self.link.connected_server {
            Some(s) => Some(s@),
            None => None,
        }
    }

    pub closed spec fn spec_frame_count(&self) -> u64 {
        self.frame_count
    }

    pub closed spec fn spec_texture(&self) -> Option<T> {
        self.bgra_texture
    }

    pub closed spec fn spec_texture_size(&self) -> (u32, u32) {
        (self.bgra_width, self.bgra_height)
    }

    /// Create a new fast receiver; it delivers RGBA until told otherwise.
    pub fn new() -> (input: Self)
        ensures
            input.spec_client() is None,
            input.spec_converter() is None,
            input.spec_format() == InputFormat::Rgba,
            input.spec_server() is None,
            input.spec_frame_count() == 0,
            input.spec_texture() is None,
            input.spec_texture_size() == (0u32, 0u32),
    {
        SyphonWgpuInputFast {
            link: ServerLink { client: None, connected_server: None },
            converter: None,
            format: InputFormat::Rgba,
            frame_count: 0,
            bgra_texture: None,
            bgra_width: 0,
            bgra_height: 0,
        }
    }

    /// Record the outcome of connecting to `server_name`: on success the
    /// receiver keeps the client and the converter built for it, names the
    /// server and starts counting frames again; on failure nothing changes.
    pub fn connect(&mut self, server_name: &str, connected: Result<(C, V), SyphonError>) -> (r: Result<(), SyphonError>)
        ensures
            match connected {
                Ok((c, v)) => {
                    &&& r is Ok
                    &&& final(self).spec_client() == Some(c)
                    &&& final(self).spec_converter() == Some(v)
                    &&& final(self).spec_server() == Some(server_name@)
                    &&& final(self).spec_frame_count() == 0
                    &&& final(self).spec_format() == old(self).spec_format()
                    &&& final(self).spec_texture() == old(self).spec_texture()
                    &&& final(self).spec_texture_size() == old(self).spec_texture_size()
                },
                Err(e) => r == Err::<(), SyphonError>(e) && *final(self) == *old(self),
            },
    {
        match connected {
            Ok((client, converter)) => {
                self.converter = Some(converter);
                self.link = ServerLink { client: Some(client), connected_server: Some(server_name.to_owned()) };
                self.frame_count = 0;
                Ok(())
            },
            Err(e) => Err(e),
        }
    }

    /// Disconnect from current server: drops the client, the converter and
    /// the server name, and resets the frame count.
    pub fn disconnect(&mut self)
        ensures
            final(self).spec_client() is None,
            final(self).spec_converter() is None,
            final(self).spec_server() is None,
            final(self).spec_frame_count() == 0,
            final(self).spec_format() == old(self).spec_format(),
            final(self).spec_texture() == old(self).spec_texture(),
            final(self).spec_texture_size() == old(self).spec_texture_size(),
    {
        self.link = ServerLink { client: None, connected_server: None };
        self.converter = None;
        self.frame_count = 0;
    }

    /// Set the output format.
    pub fn set_format(&mut self, format: InputFormat)
        ensures
            final(self).spec_format() == format,
            final(self).spec_client() == old(self).spec_client(),
            final(self).spec_converter() == old(self).spec_converter(),
            final(self).spec_server() == old(self).spec_server(),
            final(self).spec_frame_count() == old(self).spec_frame_count(),
            final(self).spec_texture() == old(self).spec_texture(),
            final(self).spec_texture_size() == old(self).spec_texture_size(),
    {
        self.format = format;
    }

    /// Get the current output format.
    pub fn format(&self) -> (f: InputFormat)
        ensures
            f == self.spec_format(),
    {
        self.format
    }

    /// The number of frames counted in the current window.
    pub fn frame_count(&self) -> (n: u64)
        ensures
            n == self.spec_frame_count(),
    {
        self.frame_count
    }

    /// Check if connected to a server; a connected receiver always has a
    /// server name.
    pub fn is_connected(&self) -> (r: bool)
        ensures
            r == self.spec_client() is Some,
            r ==> self.spec_server() is Some,
    {
        proof {
            use_type_invariant(&self.link);
        }
        self.link.client.is_some()
    }

    /// Get connected server name; there is one whenever a client is held.
    pub fn server_name(&self) -> (r: Option<&str>)
        ensures
            match self.spec_server() {
                Some(s) => r matches Some(n) && n@ == s,
                None => r is None,
            },
            self.spec_client() is Some ==> r is Some,
    {
        proof {
            use_type_invariant(&self.link);
        }
        match &self.link.connected_server {
            Some(s) => Some(s.as_str()),
            None => None,
        }
    }

    /// The client and the converter, when both are present: frames are
    /// only received then.
    pub fn receiver_parts(&mut self) -> (r: Option<(&C, &mut V)>)
        ensures
            (old(self).spec_client() is Some && old(self).spec_converter() is Some) <==> r is Some,
            final(self).spec_client() == old(self).spec_client(),
            final(self).spec_format() == old(self).spec_format(),
            final(self).spec_server() == old(self).spec_server(),
            final(self).spec_frame_count() == old(self).spec_frame_count(),
            final(self).spec_texture() == old(self).spec_texture(),
            final(self).spec_texture_size() == old(self).spec_texture_size(),
            final(self).spec_converter() is Some == old(self).spec_converter() is Some,
    {
        match (&self.link.client, &mut self.converter) {
            (Some(c), Some(v)) => Some((c, v)),
            _ => None,
        }
    }

    /// Count a received frame, `elapsed_secs` seconds after the counting
    /// window opened. When the window has lasted [`FPS_WINDOW_SECS`] the
    /// number of frames in it is returned (for a rate report) and the count
    /// starts again.
    pub fn record_frame(&mut self, elapsed_secs: u64) -> (report: Option<u64>)
        requires
            old(self).spec_frame_count() < u64::MAX,
        ensures
            elapsed_secs >= FPS_WINDOW_SECS ==> report == Some((old(self).spec_frame_count() + 1) as u64)
                && final(self).spec_frame_count() == 0,
            elapsed_secs < FPS_WINDOW_SECS ==> report is None
                && final(self).spec_frame_count() == old(self).spec_frame_count() + 1,
            final(self).spec_client() == old(self).spec_client(),
            final(self).spec_converter() == old(self).spec_converter(),
            final(self).spec_format() == old(self).spec_format(),
            final(self).spec_server() == old(self).spec_server(),
            final(self).spec_texture() == old(self).spec_texture(),
            final(self).spec_texture_size() == old(self).spec_texture_size(),
    {
        self.frame_count = self.frame_count + 1;
        if elapsed_secs >= FPS_WINDOW_SECS {
            let frames = self.frame_count;
            self.frame_count = 0;
            Some(frames)
        } else {
            None
        }
    }

    /// Whether a BGRA frame of `width` x `height` needs a new texture.
    pub fn needs_new_texture(&self, width: u32, height: u32) -> (r: bool)
        ensures
            r == (self.spec_texture() is None || self.spec_texture_size() != (width, height)),
    {
        self.bgra_texture.is_none() || self.bgra_width != width || self.bgra_height != height
    }

    /// Keep `texture` for BGRA frames of `width` x `height`.
    pub fn install_texture(&mut self, texture: T, width: u32, height: u32)
        ensures
            final(self).spec_texture() == Some(texture),
            final(self).spec_texture_size() == (width, height),
            final(self).spec_client() == old(self).spec_client(),
            final(self).spec_converter() == old(self).spec_converter(),
            final(self).spec_format() == old(self).spec_format(),
            final(self).spec_server() == old(self).spec_server(),
            final(self).spec_frame_count() == old(self).spec_frame_count(),
    {
        self.bgra_texture = Some(texture);
        self.bgra_width = width;
        self.bgra_height = height;
    }

    /// The BGRA texture, while the receiver holds one.
    pub fn texture(&self) -> (r: Option<&T>)
        ensures
            match self.spec_texture() {
                Some(t) => r == Some(&t),
                None => r is None,
            },
    {
        self.bgra_texture.as_ref()
    }

    /// Hand the BGRA texture to the caller.
    pub fn take_texture(&mut self) -> (r: Option<T>)
        ensures
            r == old(self).spec_texture(),
            final(self).spec_texture() is None,
            final(self).spec_texture_size() == old(self).spec_texture_size(),
            final(self).spec_client() == old(self).spec_client(),
            final(self).spec_converter() == old(self).spec_converter(),
            final(self).spec_format() == old(self).spec_format(),
            final(self).spec_server() == old(self).spec_server(),
            final(self).spec_frame_count() == old(self).spec_frame_count(),
    {
        self.bgra_texture.take()
    }
}

} // verus!

verus! {

/// The workgroup size the BGRA to RGBA compute shader is built with: 8 x 8
/// suits Apple Silicon and is acceptable on discrete GPUs.
pub fn detect_optimal_workgroup_size() -> (size: (u32, u32))
    ensures
        size == (8u32, 8u32),
{
    (8, 8)
}

/// The stride of the rows of a frame of `data_len` bytes and `height` rows,
/// as the converter computes it: the byte count, truncated to 32 bits,
/// divided by the number of rows.
pub fn row_stride(data_len: usize, height: u32) -> (stride: u32)
    requires
        height > 0,
    ensures
        stride == (data_len as u32) / height,
{
    (data_len as u32) / height
}

/// The uniform block handed to the conversion shader: width, height, row
/// stride in bytes, and padding.
pub fn converter_uniforms(width: u32, height: u32, stride: u32) -> (u: [u32; 4])
    ensures
        u@ == seq![width, height, stride, 0u32],
{
    [width, height, stride, 0]
}

/// The four bytes of `x`, least significant first.
pub open spec fn le_bytes(x: u32) -> Seq<u8> {
    seq![(x % 0x100) as u8, ((x / 0x100) % 0x100) as u8, ((x / 0x1_0000) % 0x100) as u8, (x / 0x100_0000) as u8]
}

/// The four bytes of `x`, most significant first.
pub open spec fn be_bytes(x: u32) -> Seq<u8> {
    seq![(x / 0x100_0000) as u8, ((x / 0x1_0000) % 0x100) as u8, ((x / 0x100) % 0x100) as u8, (x % 0x100) as u8]
}

/// The bytes of the words of `w` laid end to end, each least significant
/// byte first when `little_endian`, else most significant byte first.
pub open spec fn words_bytes(w: Seq<u32>, little_endian: bool) -> Seq<u8>
    decreases w.len(),
{
    if w.len() == 0 {
        seq![]
    } else {
        words_bytes(w.drop_last(), little_endian) + if little_endian {
            le_bytes(w.last())
        } else {
            be_bytes(w.last())
        }
    }
}

/// The bytes of a uniform block as the GPU reads them: `bytemuck::cast_slice`
/// reinterprets the four words in the machine's byte order, which is one of
/// the two orders, the same for every word.
#[verifier::external_body]
fn uniform_bytes(uniforms: &[u32; 4]) -> (bytes: Vec<u8>)
    ensures
        bytes@ == words_bytes(uniforms@, true) || bytes@ == words_bytes(uniforms@, false),
{
    bytemuck::cast_slice::<u32, u8>(uniforms).to_vec()
}

/// The bytes of the uniform block for a `width` x `height` frame whose rows
/// are `stride` bytes apart, as the conversion shader reads them: the words
/// width, height, stride and 0, each in the machine's byte order.
pub fn converter_uniform_bytes(width: u32, height: u32, stride: u32) -> (bytes: Vec<u8>)
    ensures
        bytes@ == words_bytes(seq![width, height, stride, 0u32], true)
            || bytes@ == words_bytes(seq![width, height, stride, 0u32], false),
        bytes@.len() == 16,
{
    let uniforms = converter_uniforms(width, height, stride);
    let bytes = uniform_bytes(&uniforms);
    proof {
        lemma_words_bytes_len(uniforms@, true);
        lemma_words_bytes_len(uniforms@, false);
    }
    bytes
}

/// Each word takes four bytes.
pub proof fn lemma_words_bytes_len(w: Seq<u32>, little_endian: bool)
    ensures
        words_bytes(w, little_endian).len() == 4 * w.len(),
    decreases w.len(),
{
    if w.len() > 0 {
        lemma_words_bytes_len(w.drop_last(), little_endian);
    }
}

/// Ceiling division of `n` by `d`.
pub open spec fn div_ceil(n: int, d: int) -> int {
    (n + d - 1) / d
}

/// `div_ceil(n, d)` groups of `d` cover `n`.
pub proof fn lemma_div_ceil_covers(n: int, d: int)
    by (nonlinear_arith)
    requires
        n >= 0,
        d > 0,
    ensures
        div_ceil(n, d) * d >= n,
{
}

/// The number of workgroups that cover a `width` x `height` frame with
/// workgroups of the given size.
pub fn dispatch_size(width: u32, height: u32, workgroup: (u32, u32)) -> (groups: (u32, u32))
    requires
        workgroup.0 > 0,
        workgroup.1 > 0,
        width + workgroup.0 <= u32::MAX,
        height + workgroup.1 <= u32::MAX,
    ensures
        groups.0 == div_ceil(width as int, workgroup.0 as int),
        groups.1 == div_ceil(height as int, workgroup.1 as int),
        groups.0 * workgroup.0 >= width,
        groups.1 * workgroup.1 >= height,
{
    let gx = (width + workgroup.0 - 1) / workgroup.0;
    let gy = (height + workgroup.1 - 1) / workgroup.1;
    proof {
        lemma_div_ceil_covers(width as int, workgroup.0 as int);
        lemma_div_ceil_covers(height as int, workgroup.1 as int);
    }
    (gx, gy)
}

/// The converter's pooled GPU resources: the input buffer `B` and the output
/// texture `X`, with the frame size they were made for.
pub struct ConverterBuffers<B, X> {
    input_buffer: Option<B>,
    output_texture: Option<X>,
    current_width: u32,
    current_height: u32,
}

impl<B, X> ConverterBuffers<B, X> {
    pub closed spec fn spec_input(&self) -> Option<B> {
        self.input_buffer
    }

    pub closed spec fn spec_output(&self) -> Option<X> {
        self.output_texture
    }

    pub closed spec fn spec_size(&self) -> (u32, u32) {
        (self.current_width, self.current_height)
    }

    /// No resources yet.
    pub fn new() -> (b: Self)
        ensures
            b.spec_input() is None,
            b.spec_output() is None,
            b.spec_size() == (0u32, 0u32),
    {
        ConverterBuffers { input_buffer: None, output_texture: None, current_width: 0, current_height: 0 }
    }

    /// Whether the resources must be made anew for a `width` x `height`
    /// frame: the size changed, or a resource is missing (the output
    /// texture is handed out with every frame).
    pub open spec fn must_recreate(&self, width: u32, height: u32) -> bool {
        self.spec_size() != (width, height) || self.spec_input() is None || self.spec_output() is None
    }

    /// Whether the resources must be made anew for a `width` x `height`
    /// frame (see [`Self::must_recreate`]).
    pub fn needs_rebuild(&self, width: u32, height: u32) -> (r: bool)
        ensures
            r == self.must_recreate(width, height),
    {
        self.current_width != width || self.current_height != height || self.input_buffer.is_none()
            || self.output_texture.is_none()
    }

    /// The size of the input buffer to make for a `width` x `height` frame
    /// of `input_size` bytes, or `None` when the current resources serve.
    pub fn buffer_plan(&self, width: u32, height: u32, input_size: u64) -> (plan: Option<u64>)
        requires
            self.must_recreate(width, height) ==> width * height * 4 <= u32::MAX,
        ensures
            !self.must_recreate(width, height) ==> plan is None,
            self.must_recreate(width, height) ==> plan == Some(
                if input_size >= width * height * 4 { input_size } else { (width * height * 4) as u64 },
            ),
    {
        if self.current_width != width || self.current_height != height || self.input_buffer.is_none()
            || self.output_texture.is_none() {
            let frame_bytes = (width * height * 4) as u64;
            Some(if input_size >= frame_bytes { input_size } else { frame_bytes })
        } else {
            None
        }
    }

    /// Keep newly made resources for `width` x `height` frames.
    pub fn install(&mut self, input_buffer: B, output_texture: X, width: u32, height: u32)
        ensures
            final(self).spec_input() == Some(input_buffer),
            final(self).spec_output() == Some(output_texture),
            final(self).spec_size() == (width, height),
    {
        self.input_buffer = Some(input_buffer);
        self.output_texture = Some(output_texture);
        self.current_width = width;
        self.current_height = height;
    }

    /// The input buffer and output texture, when both are present.
    pub fn resources(&self) -> (r: Option<(&B, &X)>)
        ensures
            match (self.spec_input(), self.spec_output()) {
                (Some(b), Some(x)) => r == Some((&b, &x)),
                _ => r is None,
            },
    {
        match (&self.input_buffer, &self.output_texture) {
            (Some(b), Some(x)) => Some((b, x)),
            _ => None,
        }
    }

    /// Hand the output texture to the caller.
    pub fn take_output(&mut self) -> (r: Option<X>)
        ensures
            r == old(self).spec_output(),
            final(self).spec_output() is None,
            final(self).spec_input() == old(self).spec_input(),
            final(self).spec_size() == old(self).spec_size(),
    {
        self.output_texture.take()
    }
}

} // verus!

verus! {

/// The WGSL text of the BGRA to RGBA compute shader up to its workgroup size.
/// The shader reads the frame as 32-bit words, one BGRA pixel each, and
/// stores every pixel with red and blue swapped.
pub const SHADER_HEAD: &'static str = r#"
            @group(0) @binding(0)
            var<storage, read> input_buffer: array<u32>;

            @group(0) @binding(1)
            var output_texture: texture_storage_2d<rgba8unorm, write>;

            struct Uniforms {
                width: u32,
                height: u32,
                stride: u32,
                _padding: u32,
            }
            @group(0) @binding(2)
            var<uniform> uniforms: Uniforms;

            @compute @workgroup_size("#;

/// The WGSL text between the two workgroup dimensions.
pub const SHADER_SIZE_SEPARATOR: &'static str = ", ";

/// The WGSL text of the shader after its workgroup size.
pub const SHADER_TAIL: &'static str = r#")
            fn main(@builtin(global_invocation_id) global_id: vec3<u32>) {
                let coords = vec2<u32>(global_id.x, global_id.y);
                if (coords.x >= uniforms.width || coords.y >= uniforms.height) {
                    return;
                }
                let src_idx = coords.y * (uniforms.stride / 4u) + coords.x;
                let bgra = input_buffer[src_idx];
                let b = f32((bgra >> 0u) & 0xFFu) / 255.0;
                let g = f32((bgra >> 8u) & 0xFFu) / 255.0;
                let r = f32((bgra >> 16u) & 0xFFu) / 255.0;
                let a = f32((bgra >> 24u) & 0xFFu) / 255.0;
                textureStore(output_texture, vec2<i32>(i32(coords.x), i32(coords.y)), vec4<f32>(r, g, b, a));
            }
            "#;

/// The conversion shader's source for a workgroup of `w` x `h` invocations.
pub open spec fn shader_text(w: u32, h: u32) -> Seq<char> {
    SHADER_HEAD@ + decimal(w as nat) + SHADER_SIZE_SEPARATOR@ + decimal(h as nat) + SHADER_TAIL@
}

/// The WGSL source of the BGRA to RGBA compute shader, built with
/// `workgroup_size` as its workgroup size.
pub fn shader_source(workgroup_size: (u32, u32)) -> (s: String)
    ensures
        s@ == shader_text(workgroup_size.0, workgroup_size.1),
{
    let mut s = SHADER_HEAD.to_owned();
    let w = decimal_text(workgroup_size.0 as u64);
    s.append(w.as_str());
    s.append(SHADER_SIZE_SEPARATOR);
    let h = decimal_text(workgroup_size.1 as u64);
    s.append(h.as_str());
    s.append(SHADER_TAIL);
    s
}

} // verus!
