//! The graphics context: driver, instance, the selected physical device, and
//! the logical device with its queue.
use std::sync::Arc;
use vstd::prelude::*;
use vulkano::device::physical::PhysicalDevice;
use vulkano::device::{Device, DeviceCreationError, Queue};
use vulkano::instance::{Instance, InstanceCreationError};
use vulkano::swapchain::Surface;
use vulkano::{LoadingError, VulkanError, VulkanLibrary};

use crate::selection::{
    device_info_from, is_first_family, is_selection, names_of, none_qualifies, select_candidate,
    DeviceInfo, QUEUE_GRAPHICS_BIT,
};
use crate::vk::{
    device_class, device_extension_flags, instance_handle, load_library, new_device, new_instance,
    physical_devices, queue_family_flags, surface_instance_handle, surface_support,
};

verus! {

/// The name of the device extension that presentation chains need.
pub open spec fn swapchain_extension() -> Seq<char> {
    "VK_KHR_swapchain"@
}

/// The names of the device extensions that `config` requires.
pub open spec fn required_names(config: VulkanConfig) -> Seq<Seq<char>> {
    if config.swap_chain {
        seq![swapchain_extension()]
    } else {
        Seq::empty()
    }
}

/// What the application asks of the context.
#[derive(Clone, Copy, Debug, PartialEq, Eq, Structural)]
pub struct VulkanConfig {
    /// The device must support presentation chains.
    pub swap_chain: bool,
    /// Enumerate devices that are only portability-conformant as well.
    pub support_moltenvk: bool,
}

impl Default for VulkanConfig {
    fn default() -> (r: Self)
        ensures
            !r.swap_chain,
            r.support_moltenvk,
    {
        VulkanConfig { swap_chain: false, support_moltenvk: true }
    }
}

/// The settings that an instance is created with.
pub struct InstanceInfo {
    /// Names of the instance-level extensions to enable.
    pub extensions: Vec<String>,
    pub enumerate_portability: bool,
}

impl VulkanConfig {
    /// The instance settings: no extension, and portability enumeration as
    /// `support_moltenvk` asks.
    pub fn get_create_instance_info(&self) -> (r: InstanceInfo)
        ensures
            r.extensions@.len() == 0,
            r.enumerate_portability == self.support_moltenvk,
    {
        InstanceInfo { extensions: Vec::new(), enumerate_portability: self.support_moltenvk }
    }

    /// The device extensions that a device must support: the presentation
    /// chain extension where `swap_chain` is set, else none.
    pub fn get_required_extensions(&self) -> (r: Vec<String>)
        ensures
            names_of(r@) == required_names(*self),
    {
        let mut r: Vec<String> = Vec::new();
        if self.swap_chain {
            r.push("VK_KHR_swapchain".to_owned());
        }
        proof {
            assert(names_of(r@) =~= required_names(*self));
        }
        r
    }
}

/// No physical device met the requirements: a message, and the description
/// of each device that was considered.
#[derive(Debug)]
pub struct NoPhysicalDeviceError(pub String, pub Vec<DeviceInfo>);

#[derive(Debug)]
pub enum VulkanInitError {
    LibraryLoadingError(LoadingError),
    NoPhysicalDeviceError(NoPhysicalDeviceError),
    InstanceInitError(InstanceCreationError),
    VulkanError(VulkanError),
    NoSuitableQueuesFound,
    DeviceCreationError(DeviceCreationError),
}

/// A presentation surface, with the handle of the instance it belongs to.
pub struct PresentationSurface {
    pub(crate) surface: Arc<Surface>,
    pub(crate) instance_handle: u64,
}

impl PresentationSurface {
    /// The surface.
    pub open(crate) spec fn spec_surface(&self) -> Arc<Surface> {
        self.surface
    }

    /// The raw handle of the instance that the surface belongs to.
    pub open(crate) spec fn spec_instance_handle(&self) -> u64 {
        self.instance_handle
    }

    pub fn new(surface: Arc<Surface>) -> (r: Self)
        ensures
            r.spec_surface() == surface,
    {
        let instance_handle = surface_instance_handle(&surface);
        PresentationSurface { surface, instance_handle }
    }

    pub fn surface(&self) -> (r: &Arc<Surface>)
        ensures
            *r == self.spec_surface(),
    {
        &self.surface
    }
}

/// An enumerated physical device with the number of queue families it
/// reported. Only this crate makes one, so the count is the device's own.
pub struct PhysicalDeviceEntry {
    pub(crate) device: Arc<PhysicalDevice>,
    pub(crate) family_count: usize,
}

impl PhysicalDeviceEntry {
    pub open(crate) spec fn spec_device(&self) -> Arc<PhysicalDevice> {
        self.device
    }

    /// The number of queue families that the device reported.
    pub open(crate) spec fn spec_family_count(&self) -> usize {
        self.family_count
    }

    pub fn device(&self) -> (r: &Arc<PhysicalDevice>)
        ensures
            *r == self.spec_device(),
    {
        &self.device
    }

    pub fn family_count(&self) -> (r: usize)
        ensures
            r == self.spec_family_count(),
    {
        self.family_count
    }
}

/// The outcome of device selection: the chosen device, its queue family, its
/// place in the enumeration, and the description of every enumerated device.
pub struct DeviceSelection {
    pub physical_device: PhysicalDeviceEntry,
    pub queue_family_index: u32,
    pub index: usize,
    pub devices: Vec<DeviceInfo>,
}

/// The context: it owns the logical device and its queue, made from the
/// selected physical device and queue family. Only this crate builds one, so
/// its parts belong together.
pub struct VulkanInit {
    pub(crate) library: Arc<VulkanLibrary>,
    pub(crate) instance: Arc<Instance>,
    pub(crate) physical_device: Arc<PhysicalDevice>,
    pub(crate) device: Arc<Device>,
    pub(crate) queues: Vec<Arc<Queue>>,
    pub(crate) config: VulkanConfig,
    /// The queue family that the queues come from.
    pub(crate) queue_family_index: u32,
    /// The description of every enumerated device, and the selected one's place.
    pub(crate) devices: Vec<DeviceInfo>,
    pub(crate) device_index: usize,
    /// The raw handle of `instance`.
    pub(crate) instance_handle: u64,
}

/// What a successful context holds: the selected device among the described
/// ones for the configuration's extensions, its first family with graphics
/// (and presentation, where a surface was given), and one queue.
pub open spec fn context_ok(init: VulkanInit, config: VulkanConfig, with_surface: bool) -> bool {
    &&& init.spec_config() == config
    &&& init.spec_queues().len() == 1
    &&& is_selection(init.spec_devices(), required_names(config), with_surface, init.spec_device_index() as int)
    &&& is_first_family(
        init.spec_devices()[init.spec_device_index() as int].queue_families@,
        with_surface,
        init.spec_queue_family_index() as int,
    )
}

impl VulkanInit {
    pub open(crate) spec fn spec_library(&self) -> Arc<VulkanLibrary> {
        self.library
    }

    pub open(crate) spec fn spec_instance(&self) -> Arc<Instance> {
        self.instance
    }

    pub open(crate) spec fn spec_physical_device(&self) -> Arc<PhysicalDevice> {
        self.physical_device
    }

    pub open(crate) spec fn spec_device(&self) -> Arc<Device> {
        self.device
    }

    pub open(crate) spec fn spec_queues(&self) -> Seq<Arc<Queue>> {
        self.queues@
    }

    pub open(crate) spec fn spec_config(&self) -> VulkanConfig {
        self.config
    }

    pub open(crate) spec fn spec_queue_family_index(&self) -> u32 {
        self.queue_family_index
    }

    /// The description of every enumerated device.
    pub open(crate) spec fn spec_devices(&self) -> Seq<DeviceInfo> {
        self.devices@
    }

    /// The selected device's place among `spec_devices`.
    pub open(crate) spec fn spec_device_index(&self) -> usize {
        self.device_index
    }

    /// The raw handle of the context's instance.
    pub open(crate) spec fn spec_instance_handle(&self) -> u64 {
        self.instance_handle
    }

    /// Loads the driver, creates an instance with the configuration's settings,
    /// selects a device without a surface and builds the context on it.
    pub fn new(vulkan_config: VulkanConfig) -> (r: Result<Self, VulkanInitError>)
        ensures
            r matches Ok(init) ==> context_ok(init, vulkan_config, false),
            r matches Err(VulkanInitError::NoPhysicalDeviceError(e)) ==> none_qualifies(
                e.1@,
                required_names(vulkan_config),
                false,
            ),
            r matches Err(e) ==> !(e is NoSuitableQueuesFound),
    {
        let library = Self::load()?;
        let instance = Self::create_instance(&library, &vulkan_config.get_create_instance_info())?;
        Self::from_instance(library, instance, vulkan_config, &None)
    }

    /// Loads the system's Vulkan driver.
    pub fn load() -> (r: Result<Arc<VulkanLibrary>, VulkanInitError>)
        ensures
            r matches Err(e) ==> e is LibraryLoadingError,
    {
        match load_library() {
            Ok(l) => Ok(l),
            Err(e) => Err(VulkanInitError::LibraryLoadingError(e)),
        }
    }

    /// Creates an instance with the given settings.
    pub fn create_instance(library: &Arc<VulkanLibrary>, info: &InstanceInfo) -> (r: Result<Arc<Instance>, VulkanInitError>)
        ensures
            r matches Err(e) ==> e is InstanceInitError,
    {
        match new_instance(library, info) {
            Ok(i) => Ok(i),
            Err(e) => Err(VulkanInitError::InstanceInitError(e)),
        }
    }

    /// Describes the devices of `instance`, selects one for `surface`, where one
    /// is given, and builds the context on it with a single queue of the
    /// selected family.
    pub fn from_instance(
        library: Arc<VulkanLibrary>,
        instance: Arc<Instance>,
        vulkan_config: VulkanConfig,
        surface: &Option<Arc<Surface>>,
    ) -> (r: Result<Self, VulkanInitError>)
        ensures
            r matches Ok(init) ==> context_ok(init, vulkan_config, surface is Some),
            r matches Err(VulkanInitError::NoPhysicalDeviceError(e)) ==> none_qualifies(
                e.1@,
                required_names(vulkan_config),
                surface is Some,
            ),
            r matches Err(e) ==> (e is NoPhysicalDeviceError || e is VulkanError || e is DeviceCreationError),
    {
        let required = vulkan_config.get_required_extensions();
        let (entries, infos) = Self::describe_devices(&instance, surface)?;
        let selection = Self::select_physical_device(&entries, infos, &required, surface.is_some())?;
        let DeviceSelection { physical_device, queue_family_index, index, devices } = selection;
        let (device, queues) = match new_device(&physical_device, queue_family_index, &required) {
            Ok(dq) => dq,
            Err(e) => {
                return Err(VulkanInitError::DeviceCreationError(e));
            },
        };
        let instance_handle = instance_handle(&instance);
        Ok(VulkanInit {
            library,
            instance,
            physical_device: physical_device.device,
            device,
            queues,
            config: vulkan_config,
            queue_family_index,
            devices,
            device_index: index,
            instance_handle,
        })
    }

    /// Reads what selection needs of one physical device, as `device_info_from`
    /// puts it together: presentation is asked about for each family with
    /// graphics, and only where a surface is given. At most `u32::MAX` families
    /// are described; the entry keeps the number the device reported.
    pub fn describe_device(device: Arc<PhysicalDevice>, surface: &Option<Arc<Surface>>) -> (r: (PhysicalDeviceEntry, DeviceInfo))
        ensures
            r.1.queue_families@.len() <= u32::MAX,
            r.1.queue_families@.len() <= r.0.spec_family_count(),
            r.0.spec_device() == device,
            forall|k: int| 0 <= k < r.1.queue_families@.len() ==> (#[trigger] r.1.queue_families@[k]).presentable
                ==> r.1.queue_families@[k].graphics,
            surface is None ==> forall|k: int|
                0 <= k < r.1.queue_families@.len() ==> !(#[trigger] r.1.queue_families@[k]).presentable,
    {
        let flags = device_extension_flags(&device);
        let mut family_flags = queue_family_flags(&device);
        let family_count = family_flags.len();
        if family_flags.len() > u32::MAX as usize {
            family_flags.truncate(u32::MAX as usize);
        }
        let mut support: Vec<Option<bool>> = Vec::new();
        let mut k: usize = 0;
        while k < family_flags.len()
            invariant
                k <= family_flags@.len(),
                family_flags@.len() <= u32::MAX,
                support@.len() == k,
                surface is None ==> forall|j: int| 0 <= j < k ==> (#[trigger] support@[j]) is None,
            decreases family_flags@.len() - k,
        {
            let answer = match surface {
                Some(s) => if family_flags[k] & QUEUE_GRAPHICS_BIT != 0 {
                    surface_support(&device, k as u32, s)
                } else {
                    None
                },
                None => None,
            };
            support.push(answer);
            k = k + 1;
        }
        let info = device_info_from(&flags, &family_flags, &support, device_class(&device));
        (PhysicalDeviceEntry { device, family_count }, info)
    }

    /// Enumerates the physical devices of `instance` and describes each, in
    /// the driver's order.
    pub fn describe_devices(instance: &Arc<Instance>, surface: &Option<Arc<Surface>>) -> (r: Result<
        (Vec<PhysicalDeviceEntry>, Vec<DeviceInfo>),
        VulkanInitError,
    >)
        ensures
            r matches Ok((entries, infos)) ==> {
                &&& entries@.len() == infos@.len()
                &&& forall|m: int| 0 <= m < infos@.len() ==> (#[trigger] infos@[m]).queue_families@.len() <= u32::MAX
                &&& forall|m: int| 0 <= m < infos@.len() ==> (#[trigger] infos@[m]).queue_families@.len()
                    <= entries@[m].spec_family_count()
            },
            r matches Err(e) ==> e is VulkanError,
    {
        let devices = match physical_devices(instance) {
            Ok(d) => d,
            Err(e) => {
                return Err(VulkanInitError::VulkanError(e));
            },
        };
        let mut entries: Vec<PhysicalDeviceEntry> = Vec::new();
        let mut infos: Vec<DeviceInfo> = Vec::new();
        let mut i: usize = 0;
        while i < devices.len()
            invariant
                i <= devices@.len(),
                infos@.len() == i,
                entries@.len() == i,
                forall|m: int| 0 <= m < infos@.len() ==> (#[trigger] infos@[m]).queue_families@.len() <= u32::MAX,
                forall|m: int| 0 <= m < infos@.len() ==> (#[trigger] infos@[m]).queue_families@.len()
                    <= entries@[m].spec_family_count(),
            decreases devices@.len() - i,
        {
            let (entry, info) = Self::describe_device(devices[i].clone(), surface);
            entries.push(entry);
            infos.push(info);
            i = i + 1;
        }
        Ok((entries, infos))
    }

    /// Selects among described devices with `select_candidate`: the device of
    /// the best class, the first listed among equals, that supports every
    /// required extension and has a family with graphics (and presentation,
    /// where `with_surface` holds), with its first such family.
    pub fn select_physical_device(
        entries: &Vec<PhysicalDeviceEntry>,
        devices: Vec<DeviceInfo>,
        device_extensions: &Vec<String>,
        with_surface: bool,
    ) -> (r: Result<DeviceSelection, VulkanInitError>)
        requires
            entries@.len() == devices@.len(),
            forall|m: int| 0 <= m < devices@.len() ==> (#[trigger] devices@[m]).queue_families@.len() <= u32::MAX,
            forall|m: int| 0 <= m < devices@.len() ==> (#[trigger] devices@[m]).queue_families@.len()
                <= entries@[m].spec_family_count(),
        ensures
            r is Err <==> none_qualifies(devices@, names_of(device_extensions@), with_surface),
            r matches Ok(s) ==> {
                &&& s.devices == devices
                &&& s.physical_device.spec_device() == entries@[s.index as int].spec_device()
                &&& s.physical_device.spec_family_count() == entries@[s.index as int].spec_family_count()
                &&& is_selection(devices@, names_of(device_extensions@), with_surface, s.index as int)
                &&& is_first_family(devices@[s.index as int].queue_families@, with_surface, s.queue_family_index as int)
            },
            r matches Err(e) ==> (e matches VulkanInitError::NoPhysicalDeviceError(n) && n.1 == devices),
    {
        match select_candidate(&devices, device_extensions, with_surface) {
            Some((index, queue_family_index)) => {
                let entry = &entries[index];
                let physical_device = PhysicalDeviceEntry { device: entry.device.clone(), family_count: entry.family_count };
                Ok(DeviceSelection { physical_device, queue_family_index, index, devices })
            },
            None => Err(VulkanInitError::NoPhysicalDeviceError(
                NoPhysicalDeviceError("no physical vulkan device found".to_owned(), devices),
            )),
        }
    }

    pub fn device(&self) -> (r: &Arc<Device>)
        ensures
            *r == self.spec_device(),
    {
        &self.device
    }

    pub fn physical_device(&self) -> (r: &Arc<PhysicalDevice>)
        ensures
            *r == self.spec_physical_device(),
    {
        &self.physical_device
    }

    pub fn instance(&self) -> (r: &Arc<Instance>)
        ensures
            *r == self.spec_instance(),
    {
        &self.instance
    }

    pub fn library(&self) -> (r: &Arc<VulkanLibrary>)
        ensures
            *r == self.spec_library(),
    {
        &self.library
    }

    pub fn queues(&self) -> (r: &Vec<Arc<Queue>>)
        ensures
            r@ == self.spec_queues(),
    {
        &self.queues
    }

    pub fn config(&self) -> (r: VulkanConfig)
        ensures
            r == self.spec_config(),
    {
        self.config
    }

    pub fn queue_family_index(&self) -> (r: u32)
        ensures
            r == self.spec_queue_family_index(),
    {
        self.queue_family_index
    }

    /// The description of the selected device.
    pub fn device_info(&self) -> (r: &DeviceInfo)
        requires
            self.spec_device_index() < self.spec_devices().len(),
        ensures
            *r == self.spec_devices()[self.spec_device_index() as int],
    {
        &self.devices[self.device_index]
    }
}

} // verus!
