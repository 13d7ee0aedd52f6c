//! What the instance, the debug messenger and the device are set up with.
//!
//! Validation is part of a debug build only: the caller says which build it
//! is.

use vstd::prelude::*;

verus! {

#[derive(Clone, Copy, Debug, PartialEq, Eq, Structural)]
pub struct Version {
    pub major: u32,
    pub minor: u32,
    pub patch: u32,
}

/// A validation feature that can be switched on.
#[derive(Clone, Copy, Debug, PartialEq, Eq, Structural)]
pub enum ValidationFeature {
    DebugPrintf,
    BestPractices,
    SynchronizationValidation,
}

/// Which messages the debug messenger passes on, by severity.
#[derive(Clone, Copy, Debug, PartialEq, Eq, Structural)]
pub struct MessageSeverity {
    pub error: bool,
    pub warning: bool,
    pub information: bool,
    pub verbose: bool,
}

/// Which messages the debug messenger passes on, by kind.
#[derive(Clone, Copy, Debug, PartialEq, Eq, Structural)]
pub struct MessageType {
    pub general: bool,
    pub validation: bool,
    pub performance: bool,
}

#[derive(Clone, Copy, Debug, PartialEq, Eq, Structural)]
pub struct DebugCreateInfo {
    pub message_severity: MessageSeverity,
    pub message_type: MessageType,
}

#[derive(Debug)]
pub struct InstanceCreateInfo {
    pub application_name: &'static str,
    pub application_version: Version,
    pub engine_name: &'static str,
    pub engine_version: Version,
    /// The validation-features extension is enabled.
    pub ext_validation_features: bool,
    /// The debug-utilities extension is enabled.
    pub ext_debug_utils: bool,
    pub enabled_layers: Vec<&'static str>,
    pub enabled_validation_features: Vec<ValidationFeature>,
}

#[derive(Debug)]
pub struct VulkanoConfig {
    pub instance_create_info: InstanceCreateInfo,
    pub debug_create_info: Option<DebugCreateInfo>,
    /// The swapchain extension is enabled on the device.
    pub khr_swapchain: bool,
    /// The geometry-stage feature is enabled on the device.
    pub geometry_shader: bool,
    pub print_device_name: bool,
}

#[derive(Debug)]
pub struct VulkanoWinitConfig {
    pub return_from_run: bool,
    pub vulkano_config: VulkanoConfig,
    pub is_gui_overlay: bool,
    pub add_primary_window: bool,
}

/// The version of the application and of its engine.
pub open spec fn release() -> Version {
    Version { major: 0, minor: 0, patch: 1 }
}

/// The names of the layers of a list.
pub open spec fn layer_names(layers: Seq<&'static str>) -> Seq<Seq<char>> {
    Seq::new(layers.len(), |i: int| layers[i]@)
}

/// The layers to enable: the validation layer in a debug build, none
/// otherwise.
pub open spec fn layers_for(debug: bool) -> Seq<Seq<char>> {
    if debug {
        seq!["VK_LAYER_KHRONOS_validation"@]
    } else {
        Seq::empty()
    }
}

/// The instance is set up as `create_instance_info` says for a build and a
/// choice of validation features.
pub open spec fn is_instance_for(
    info: InstanceCreateInfo,
    debug: bool,
    features: Seq<ValidationFeature>,
) -> bool {
    &&& info.application_name@ == "Gamess9 Game"@
    &&& info.application_version == release()
    &&& info.engine_name@ == "Gamess9 Engine"@
    &&& info.engine_version == release()
    &&& info.ext_validation_features == debug
    &&& info.ext_debug_utils == debug
    &&& layer_names(info.enabled_layers@) == layers_for(debug)
    &&& info.enabled_validation_features@ == if debug {
        features
    } else {
        Seq::empty()
    }
}

/// The debug messenger of a build: none but in a debug build, where it
/// passes on messages of every kind and of the given severities.
pub open spec fn debugger_for(debug: bool, severity: MessageSeverity) -> Option<DebugCreateInfo> {
    if debug {
        Some(
            DebugCreateInfo {
                message_severity: severity,
                message_type: MessageType { general: true, validation: true, performance: true },
            },
        )
    } else {
        None
    }
}

fn create_instance_info(debug: bool, features: Vec<ValidationFeature>) -> (info: InstanceCreateInfo)
    ensures
        is_instance_for(info, debug, features@),
{
    let mut enabled_layers: Vec<&'static str> = Vec::new();
    if debug {
        enabled_layers.push("VK_LAYER_KHRONOS_validation");
    }
    let enabled_validation_features = if debug {
        features
    } else {
        Vec::new()
    };
    proof {
        assert(layer_names(enabled_layers@) =~= layers_for(debug));
    }
    InstanceCreateInfo {
        application_name: "Gamess9 Game",
        application_version: Version { major: 0, minor: 0, patch: 1 },
        engine_name: "Gamess9 Engine",
        engine_version: Version { major: 0, minor: 0, patch: 1 },
        ext_validation_features: debug,
        ext_debug_utils: debug,
        enabled_layers,
        enabled_validation_features,
    }
}

/// What the instance of the stand-alone renderer is created with. In a debug
/// build the validation layer is on, with debug printing, best practices and
/// synchronisation validation.
pub fn create_instance(debug: bool) -> (info: InstanceCreateInfo)
    ensures
        is_instance_for(
            info,
            debug,
            seq![
                ValidationFeature::DebugPrintf,
                ValidationFeature::BestPractices,
                ValidationFeature::SynchronizationValidation,
            ],
        ),
{
    let mut features: Vec<ValidationFeature> = Vec::new();
    features.push(ValidationFeature::DebugPrintf);
    features.push(ValidationFeature::BestPractices);
    features.push(ValidationFeature::SynchronizationValidation);
    proof {
        assert(features@ =~= seq![
            ValidationFeature::DebugPrintf,
            ValidationFeature::BestPractices,
            ValidationFeature::SynchronizationValidation,
        ]);
    }
    create_instance_info(debug, features)
}

/// What the debug messenger of the stand-alone renderer is created with:
/// none but in a debug build, where it passes on everything but plain
/// information.
pub fn create_debugger(debug: bool) -> (info: Option<DebugCreateInfo>)
    ensures
        info == debugger_for(
            debug,
            MessageSeverity { error: true, warning: true, information: false, verbose: true },
        ),
{
    if !debug {
        return None;
    }
    Some(
        DebugCreateInfo {
            message_severity: MessageSeverity {
                error: true,
                warning: true,
                information: false,
                verbose: true,
            },
            message_type: MessageType { general: true, validation: true, performance: true },
        },
    )
}

/// The configuration of the windowed renderer. In a debug build the
/// validation layer is on, with debug printing and synchronisation
/// validation, every message is passed on, and the device's name is printed.
/// The swapchain extension and the geometry-stage feature, which the device
/// filter demands, are always enabled; the event loop does not return,
/// the interface is drawn as an overlay, and a primary window is opened.
pub fn get_vulkano_config(debug: bool) -> (config: VulkanoWinitConfig)
    ensures
        is_instance_for(
            config.vulkano_config.instance_create_info,
            debug,
            seq![ValidationFeature::DebugPrintf, ValidationFeature::SynchronizationValidation],
        ),
        config.vulkano_config.debug_create_info == debugger_for(
            debug,
            MessageSeverity { error: true, warning: true, information: true, verbose: true },
        ),
        config.vulkano_config.khr_swapchain,
        config.vulkano_config.geometry_shader,
        config.vulkano_config.print_device_name == debug,
        !config.return_from_run,
        config.is_gui_overlay,
        config.add_primary_window,
{
    let mut features: Vec<ValidationFeature> = Vec::new();
    features.push(ValidationFeature::DebugPrintf);
    features.push(ValidationFeature::SynchronizationValidation);
    proof {
        assert(features@ =~= seq![
            ValidationFeature::DebugPrintf,
            ValidationFeature::SynchronizationValidation,
        ]);
    }
    let instance_create_info = create_instance_info(debug, features);
    let debug_create_info = if debug {
        Some(
            DebugCreateInfo {
                message_severity: MessageSeverity {
                    error: true,
                    warning: true,
                    information: true,
                    verbose: true,
                },
                message_type: MessageType { general: true, validation: true, performance: true },
            },
        )
    } else {
        None
    };
    let vulkano_config = VulkanoConfig {
        instance_create_info,
        debug_create_info,
        khr_swapchain: true,
        geometry_shader: true,
        print_device_name: debug,
    };
    VulkanoWinitConfig {
        return_from_run: false,
        vulkano_config,
        is_gui_overlay: true,
        add_primary_window: true,
    }
}

} // verus!
