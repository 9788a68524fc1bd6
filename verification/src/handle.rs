use vstd::prelude::*;

verus! {

/// The handle a creation call makes live: none for the null handle, the
/// handle itself otherwise.
pub open spec fn created(raw: usize) -> Option<usize> {
    if raw == 0 { None } else { Some(raw) }
}

/// What an object made by a device holds: its own native handle and the
/// handle of the device it was made from.
pub struct ChildView {
    pub handle: usize,
    pub device: usize,
}

/// The object a creation call on `device` makes live from the returned handle.
pub open spec fn created_child(device: usize, raw: usize) -> Option<ChildView> {
    if raw == 0 { None } else { Some(ChildView { handle: raw, device }) }
}

/// What a release of a device hands to the destroy call: its handle, unless null.
pub open spec fn device_release(handle: usize) -> Option<usize> {
    if handle == 0 { None } else { Some(handle) }
}

/// What a release of a device-made object hands to the destroy call: the
/// device it came from and its own handle, unless its handle is null.
pub open spec fn child_release(child: ChildView) -> Option<(usize, usize)> {
    if child.handle == 0 { None } else { Some((child.device, child.handle)) }
}

/// A rendering-interface device, known by its native handle. Never null.
pub struct Device {
    inner: usize,
}

impl View for Device {
    type V = usize;

    closed spec fn view(&self) -> usize {
        self.inner
    }
}

impl Device {
    #[verifier::type_invariant]
    spec fn live(self) -> bool {
        self.inner != 0
    }

    /// The device for the handle a native creation call returned; `None` when
    /// that call failed and returned the null handle.
    pub fn from_handle(raw: usize) -> (device: Option<Device>)
        ensures
            device is Some <==> raw != 0,
            device matches Some(d) ==> d@ == raw,
            device matches Some(d) ==> created(raw) == Some(d@),
    {
        if raw == 0 {
            None
        } else {
            Some(Device { inner: raw })
        }
    }

    /// The native handle.
    pub fn handle(&self) -> (h: usize)
        ensures
            h == self@,
            h != 0,
    {
        proof {
            use_type_invariant(self);
        }
        self.inner
    }

    /// The handle to pass to the destroy call when the device goes away.
    pub fn release_target(&self) -> (target: Option<usize>)
        ensures
            target == device_release(self@),
            target == Some(self@),
    {
        proof {
            use_type_invariant(self);
        }
        if self.inner == 0 {
            None
        } else {
            Some(self.inner)
        }
    }
}

/// A texture made by a device, known by its native handle and that device's.
/// Its handle is never null.
pub struct Texture {
    inner: usize,
    device: usize,
}

impl View for Texture {
    type V = ChildView;

    closed spec fn view(&self) -> ChildView {
        ChildView { handle: self.inner, device: self.device }
    }
}

impl Texture {
    #[verifier::type_invariant]
    spec fn live(self) -> bool {
        self.inner != 0
    }

    /// The texture for the handle a native creation call on `device`
    /// returned; `None` when that call returned the null handle.
    pub fn from_handle(device: &Device, raw: usize) -> (texture: Option<Texture>)
        ensures
            texture is Some <==> raw != 0,
            texture matches Some(t) ==> t@.handle == raw && t@.device == device@,
            texture matches Some(t) ==> created_child(device@, raw) == Some(t@),
    {
        if raw == 0 {
            None
        } else {
            Some(Texture { inner: raw, device: device.handle() })
        }
    }

    /// The texture's native handle.
    pub fn handle(&self) -> (h: usize)
        ensures
            h == self@.handle,
            h != 0,
    {
        proof {
            use_type_invariant(self);
        }
        self.inner
    }

    /// The handle of the device that made the texture.
    pub fn device(&self) -> (d: usize)
        ensures
            d == self@.device,
    {
        self.device
    }

    /// The (device, texture) handles to pass to the destroy call.
    pub fn release_args(&self) -> (args: Option<(usize, usize)>)
        ensures
            args == Some((self@.device, self@.handle)),
            args == child_release(self@),
            args is Some,
    {
        proof {
            use_type_invariant(self);
        }
        if self.inner == 0 {
            None
        } else {
            Some((self.device, self.inner))
        }
    }
}

/// A command buffer made by a device, known by its native handle and that
/// device's. Its handle is never null.
pub struct CommandBuffer {
    inner: usize,
    device: usize,
}

impl View for CommandBuffer {
    type V = ChildView;

    closed spec fn view(&self) -> ChildView {
        ChildView { handle: self.inner, device: self.device }
    }
}

impl CommandBuffer {
    #[verifier::type_invariant]
    spec fn live(self) -> bool {
        self.inner != 0
    }

    /// The command buffer for the handle a native creation call on `device`
    /// returned; `None` when that call returned the null handle.
    pub fn from_handle(device: &Device, raw: usize) -> (buffer: Option<CommandBuffer>)
        ensures
            buffer is Some <==> raw != 0,
            buffer matches Some(b) ==> b@.handle == raw && b@.device == device@,
            buffer matches Some(b) ==> created_child(device@, raw) == Some(b@),
    {
        if raw == 0 {
            None
        } else {
            Some(CommandBuffer { inner: raw, device: device.handle() })
        }
    }

    /// The command buffer's native handle.
    pub fn handle(&self) -> (h: usize)
        ensures
            h == self@.handle,
            h != 0,
    {
        proof {
            use_type_invariant(self);
        }
        self.inner
    }

    /// The handle of the device that made the command buffer.
    pub fn device(&self) -> (d: usize)
        ensures
            d == self@.device,
    {
        self.device
    }

    /// The (device, command buffer) handles to pass to the destroy call.
    pub fn release_args(&self) -> (args: Option<(usize, usize)>)
        ensures
            args == Some((self@.device, self@.handle)),
            args == child_release(self@),
            args is Some,
    {
        proof {
            use_type_invariant(self);
        }
        if self.inner == 0 {
            None
        } else {
            Some((self.device, self.inner))
        }
    }
}

/// What a device's release destroys is exactly the handle its creation call
/// returned, and a null handle never becomes a device.
pub proof fn lemma_device_release_undoes_creation(raw: usize)
    ensures
        raw == 0 ==> created(raw) is None,
        raw != 0 ==> (created(raw) matches Some(h) && device_release(h) == Some(raw)),
{
}

/// A texture or command buffer is destroyed through the very device it was
/// made from, with the handle its creation call returned; a null handle never
/// becomes such an object.
pub proof fn lemma_child_destroyed_through_its_device(device: usize, raw: usize)
    ensures
        raw == 0 ==> created_child(device, raw) is None,
        raw != 0 ==> (created_child(device, raw) matches Some(c) && child_release(c) == Some((device, raw))),
{
}

/// An object made on a device from a non-null handle holds exactly that
/// handle as its own and exactly that device as its maker, whatever their values.
pub proof fn lemma_child_holds_its_handle_and_device(device: usize, raw: usize)
    requires
        raw != 0,
    ensures
        created_child(device, raw) == Some(ChildView { handle: raw, device: device }),
{
}

/// Releasing a live object hands the destroy call the device it records and
/// its own handle, unchanged, whatever their values.
pub proof fn lemma_release_passes_recorded_handles(handle: usize, device: usize)
    requires
        handle != 0,
    ensures
        child_release(ChildView { handle: handle, device: device }) == Some((device, handle)),
{
}

/// A device made from a non-null handle holds exactly that handle, and its
/// release passes that same handle on.
pub proof fn lemma_device_holds_its_handle(raw: usize)
    requires
        raw != 0,
    ensures
        created(raw) == Some(raw),
        device_release(raw) == Some(raw),
{
}

} // verus!
