//! App Execution.
//!
//! Control app launch, execution, and termination.
//!
//! Your app interacts with the system during normal execution by calling system APIs.
//! However, you need to communicate information about how to execute your app before you have access to these API calls.
//! For example, you may need to specify under what conditions your app can launch, the environment that it should launch into,
//! and what should happen when it terminates. You add keys to your app’s Information Property List file to manage its execution.
//!
use vstd::prelude::*;
use std::collections::BTreeMap;

verus! {

/// Launch.
#[derive(Debug, Clone, PartialEq, Default)]
pub struct Launch {
    /// The name of the bundle’s main executable class.
    ///
    /// The system uses the class identified by this key to set the principalClass property of a bundle when it’s loaded.
    ///
    /// Xcode sets the default value of this key to NSApplication for macOS apps, and to UIApplication for iOS and tvOS apps.
    /// For other types of bundles, you must set this key in The Info.plist File.
    pub principal_class: Option<String>,
    /// The name of the class that implements the complication data source protocol.
    ///
    /// Xcode automatically includes this key in the information property list when you modify the WatchKit extension’s
    /// data source (General > Complication Configuration > Data Source class).
    pub complication_principal_class: Option<Vec<String>>,
    /// The name of the bundle’s executable file.
    ///
    /// For an app, this key is the executable. For a loadable bundle, it's the binary that's loaded dynamically
    /// by the bundle. For a framework, it's the shared library framework and must have the same name as the
    /// framework but without the .framework extension.
    ///
    /// macOS uses this key to locate the bundle’s executable or shared library in cases where the user renames the app or bundle directory.
    pub bundle_executable: Option<String>,
    /// Environment variables to set before launching the app.
    pub environment: Option<Vec<String>>,
    /// Application shortcut items.
    pub application_shortcut_items: Option<Vec<ApplicationShortcutItem>>,
}

/// Application Shortcut Item.
#[derive(Debug, Clone, PartialEq, Default)]
pub struct ApplicationShortcutItem {
    pub icon_file: Option<String>,
    pub symbol_name: Option<String>,
    pub icon_type: Option<String>,
    pub subtitle: Option<String>,
    pub title: String,
    pub item_type: String,
    pub user_info: Option<BTreeMap<String, String>>,
}

/// Launch Conditions.
#[derive(Debug, Clone, PartialEq, Default)]
pub struct LaunchConditions {
    /// The device-related features that your app requires to run.
    ///
    /// The App Store prevents customers from installing an app on a device that doesn’t support the required capabilities
    /// for that app. Use this key to declare the capabilities your app requires. For a list of the features that different
    /// devices support, see Required Device Capabilities.
    ///
    /// You typically use an array for the key’s associated value. The presence in that array of any of the above possible values
    /// indicates that the app requires the corresponding feature. Omit a value to indicate that the app doesn’t require
    /// the feature, but it can be present.
    ///
    /// Alternatively, you can use a dictionary as the associated value for the UIRequiredDeviceCapabilities key. In that case,
    /// use the values above as the dictionary’s keys, each with an associated Boolean value. Set the value to true to require
    /// the corresponding feature. Set the value to false to indicate that the feature must not be present on the device. Omit
    /// the feature from the dictionary to indicate that your app neither requires nor disallows it.
    ///
    /// Specify only the features that your app absolutely requires. If your app can accommodate missing features by avoiding
    /// the code paths that use those features, don’t include the corresponding key.
    pub required_device_capabilities: Option<Vec<DeviceCapabilities>>,
    /// An array of the architectures that the app supports, arranged according to their preferred usage.
    ///
    /// Use this key to prioritize the execution of a specific architecture in a universal binary. This key contains an array
    /// of strings, with each string specifying the name of a supported architecture. The order of the strings in the array
    /// represents your preference for executing the app. For example, if you specify the x86_64 architecture first for a
    /// universal app, the system runs that app under Rosetta translation on Apple silicon. For more information about
    /// Rosetta translation, see About the Rosetta Translation Environment.
    pub architecture_priority: Option<ArchitecturePriority>,
    /// A Boolean value that indicates whether to require the execution of the app’s native architecture when multiple
    /// architectures are available.
    ///
    /// When an app supports multiple architectures, the presence of this key causes the system to choose the native architecture
    /// over ones that require translation. For example, this key prevents the system from using the Rosetta translation process
    /// to execute the Intel portion of a universal app on Apple silicon.
    pub requires_native_execution: Option<bool>,
    /// A Boolean value indicating whether the user can install and run the watchOS app independently of its iOS companion app.
    ///
    /// Xcode automatically includes this key in the WatchKit extension’s information property list and sets its value to true
    /// when you create a project using the iOS App with Watch App template. When you set the value of this key to true, the app
    /// doesn’t need its iOS companion app to operate properly. Users can choose to install the iOS app, the watchOS app, or both.
    pub runs_independently_of_companion_app: Option<bool>,
    /// A Boolean value indicating whether the app is a watch-only app.
    ///
    /// Xcode automatically includes this key in the WatchKit extension’s information property list and sets its value to true
    /// when you create a project using the Watch App template. When you set the value of this key to true, the app is only available
    /// on Apple Watch, with no related iOS app.
    pub watch_only: Option<bool>,
    /// A Boolean value that indicates whether a watchOS app should opt out of automatically launching when its companion iOS
    /// app starts playing audio content.
    ///
    /// If your watchOS app does not act as a remote control for the iOS app, set this key to true in your WatchKit extension’s
    /// information property list.
    pub auto_launch_audio_opt_out: Option<bool>,
    /// The complication families that the app can provide data for.
    ///
    /// To add this key to the information property list, enable the desired families in the WatchKit extension’s Complication
    /// Configuration settings.
    pub complication_supported_families: Option<Vec<ComplicationSupportedFamilies>>,
}

/// App Clips.
#[derive(Debug, Clone, PartialEq, Default)]
pub struct AppClips {
    /// A collection of keys that an App Clip uses to get additional capabilities.
    pub app_clip: Option<AppClip>,
}

/// Background Execution.
#[derive(Debug, Clone, PartialEq, Default)]
pub struct BackgroundExecution {
    /// Services provided by an app that require it to run in the background.
    pub ui_background_modes: Option<Vec<UiBackgroundMode>>,
    /// The services a watchOS app provides that require it to continue running in the background.
    ///
    /// You can only enable one of the extended runtime session modes (self-care, mindfulness, physical-therapy, or alarm).
    /// However, you can enable both an extended runtime session mode and the workout-processing mode. If you set the background
    /// modes using Xcode’s Signing & Capabilities tab, Xcode insures that these values are set properly.
    pub wk_background_modes: Option<Vec<WkBackgroundMode>>,
    /// An array of strings containing developer-specified task identifiers in reverse URL notation.
    pub task_scheduler_permitted_identifiers: Option<Vec<String>>,
    /// A Boolean value indicating whether the app runs only in the background.
    pub background_only: Option<bool>,
}

/// Endpoint Security.
#[derive(Debug, Clone, PartialEq, Default)]
pub struct EndpointSecurity {
    pub endpoint_security_early_boot: Option<bool>,
    pub endpoint_security_reboot_required: Option<bool>,
}

/// Plugin Support.
#[derive(Debug, Clone, PartialEq, Default)]
pub struct PluginSupport {
    /// The name of the app's plugin bundle.
    pub dock_tile_plugin: Option<String>,
}

/// Plugin Configuration.
#[derive(Debug, Clone, PartialEq, Default)]
pub struct PluginConfiguration {
    /// The function to use when dynamically registering a plugin.
    pub plugin_dynamic_register_function: Option<String>,
    /// A Boolean value indicating whether the host loads this plugin.
    pub plugin_dynamic_registration: Option<bool>,
    /// The interfaces supported by the plugin for static registration.
    pub plugin_factories: Option<BTreeMap<String, String>>,
    /// One or more groups of interfaces supported by the plugin for static registration.
    pub plugin_types: Option<BTreeMap<String, String>>,
    /// The name of the function to call to unload the plugin code from memory.
    pub plugin_unload_function: Option<String>,
}

/// Termination.
#[derive(Debug, Clone, PartialEq, Default)]
pub struct Termination {
    /// A Boolean value indicating whether the app is notified when a child process dies.
    pub get_app_died_events: Option<bool>,
    /// A Boolean value indicating whether the system may terminate the app to log out or shut down more quickly.
    pub supports_sudden_termination: Option<bool>,
    /// Deprecated: A Boolean value indicating whether the app terminates, rather than moves to the background, when the app quits.
    pub application_exits_on_suspend: Option<bool>,
}

/// WK Background Mode.
#[derive(Debug, Clone, PartialEq)]
pub enum WkBackgroundMode {
    /// Allows an active workout session to run in the background.
    WorkoutProcessing,
    /// Enables extended runtime sessions for brief activities focusing on health or emotional well-being.
    SelfCare,
    /// Enables extended runtime sessions for silent meditation.
    Mindfulness,
    /// Enables extended runtime sessions for stretching, strengthening, or range-of-motion exercises.
    PhysicalTherapy,
    /// Enables extended runtime sessions for smart alarms.
    Alarm,
}

/// UI Background Mode.
#[derive(Debug, Clone, PartialEq)]
pub enum UiBackgroundMode {
    Audio,
    Location,
    Voip,
    ExternalAccessory,
    BluetoothCentral,
    BluetoothPeripheral,
    Fetch,
    RemoteNotification,
    Processing,
}

/// App Clip.
#[derive(Debug, Clone, PartialEq, Default)]
pub struct AppClip {
    /// A Boolean value that indicates whether an App Clip can schedule or receive notifications for a limited amount of time.
    ///
    /// Set the corresponding value to true to enable your App Clip to schedule or receive notifications for up to 8 hours
    /// after each launch. For more information, see Enabling Notifications in App Clips.
    pub request_ephemeral_user_notification: Option<bool>,
    /// A Boolean value that indicates whether an App Clip can confirm the user’s location.
    ///
    /// Set the value to true to allow your App Clip to confirm the user’s location. For more information, see Responding to Invocations.
    pub request_location_confirmation: Option<bool>,
}

/// Safari Website Access.
#[derive(Debug, Clone, PartialEq, Default)]
pub struct SafariWebsiteAccess {
    /// The domains that a Safari extension is allowed access to.
    pub allowed_domains: Option<Vec<String>>,
    /// The level of a Safari extension’s website access.
    pub level: Option<SafariWebsiteAccessLevel>,
}

#[derive(Debug, Clone, PartialEq)]
pub enum SafariWebsiteAccessLevel {
    /// No website access.
    NoAccess,
    All,
    /// Access to some websites.
    SomeAccess,
}

/// Safari Toolbar Item.
#[derive(Debug, Clone, PartialEq, Default)]
pub struct SafariToolbarItem {
    /// The properties of an app extension's toolbar item that's been added to the Safari window.
    pub action: Option<String>,
    /// The identifier for a Safari extension's toolbar item.
    pub identifier: Option<String>,
    /// An image that represents a Safari extension's toolbar item.
    pub image: Option<String>,
    /// The label for the Safari extension's toolbar item.
    pub label: Option<String>,
}

/// Safari Style Sheet.
#[derive(Debug, Clone, PartialEq, Default)]
pub struct SafariStyleSheet {
    /// The webpages that the script can be injected into.
    pub allowed_url_patterns: Option<Vec<String>>,
    /// The webpages that the script can't be injected into.
    pub excluded_url_patterns: Option<Vec<String>>,
    /// The path to the style sheet, relative to the Resources folder in the app extension's bundle.
    pub style_sheet: Option<String>,
}

/// The context menu items for a Safari extension.
#[derive(Debug, Clone, PartialEq, Default)]
pub struct SafariContextMenu {
    /// The command to send to the app extension when the user selects the context menu item.
    pub command: Option<String>,
    /// The text to display for the context menu item.
    pub text: Option<String>,
}

/// Safari Content Script.
#[derive(Debug, Clone, PartialEq, Default)]
pub struct SafariContentScript {
    /// The webpages that the script can be injected into.
    pub allowed_url_patterns: Option<Vec<String>>,
    /// The webpages that the script can't be injected into.
    pub excluded_url_patterns: Option<Vec<String>>,
    /// The path to the content script, relative to the Resources folder in the app extension's bundle.
    pub script: Option<String>,
}

/// Extension Point Identifier.
#[derive(Debug, Clone, PartialEq)]
pub enum ExtensionPointIdentifier {
    UiServices,
    Services,
    KeyboardService,
    FileproviderNonui,
    FileproviderActionsui,
    FinderSync,
    IdentityLookupMessageFilter,
    PhotoEditing,
    ShareServices,
    CallkitCallDirectory,
    AuthenticationServicesAccountAuthenticationModificationUi,
    AudioUnitUi,
    AppSsoIdpExtension,
    AuthenticationServicesCredentialProviderUi,
    BroadcastServicesSetupui,
    BroadcastServicesUpload,
    ClasskitContextProvider,
    SafariContentBlocker,
    MessagePayloadProvider,
    IntentsService,
    IntentsUiService,
    NetworkExtensionAppProxy,
    UsernotificationsContentExtension,
    UsernotificationsService,
    CtkTokens,
    PhotoProject,
    QuicklookPreview,
    SafariExtension,
    SpotlightIndex,
    QuicklookThumbnail,
    TvTopShelf,
    ClassificationUi,
    WidgetkitExtension,
    ExtensionSourceEditor,
}

/// Document Picker Modes.
#[derive(Debug, Clone, PartialEq)]
pub enum DocumentPickerModes {
    Import,
    Open,
    ExportToService,
    MoveToService,
}

#[derive(Debug, Clone, PartialEq, Default)]
pub struct FileProviderAction {
    /// A predicate that determines whether a File Provider extension action appears in the context menu.
    pub activation_rule: Option<String>,
    /// A unique identifier for a File Provider extension action.
    pub identifier: Option<String>,
    /// The localized name for a File Provider extension action that appears in the context menu.
    pub name: Option<String>,
}

/// Context Messages.
#[derive(Debug, Clone, PartialEq)]
pub enum ContextMessages {
    Messages,
    Media,
}

/// Media Types.
#[derive(Debug, Clone, PartialEq)]
pub enum MediaTypes {
    Image,
    Video,
}

/// Media Categories.
#[derive(Debug, Clone, PartialEq)]
pub enum MediaCategories {
    Audiobooks,
    Music,
    General,
    Podcasts,
    Radio,
}

/// Activation Rule.
#[derive(Debug, Clone, PartialEq, Default)]
pub struct ActivationRule {
    /// The version of the parent extension-activation rule dictionary.
    pub dictionary_version: Option<i32>,
    /// The maximum number of attachments that the app extension supports.
    pub supports_attachments_with_max_count: Option<i32>,
    /// The minimum number of attachments that the app extension supports.
    pub supports_attachments_with_min_count: Option<i32>,
    /// The maximum number of all types of files that the app extension supports.
    pub supports_file_with_max_count: Option<i32>,
    /// The maximum number of image files that the app extension supports.
    pub supports_image_with_max_count: Option<i32>,
    /// The maximum number of movie files that the app extension supports.
    pub supports_movie_with_max_count: Option<i32>,
    /// A Boolean value indicating whether the app extension supports text.
    pub supports_text: Option<i32>,
    /// The maximum number of webpages that the app extension supports.
    pub supports_web_page_with_max_count: Option<i32>,
    /// The maximum number of HTTP URLs that the app extension supports.
    pub supports_web_url_with_max_count: Option<i32>,
    /// A Boolean value indicating whether strict or fuzzy matching is used when determining the asset types an app extension handles.
    pub uses_strict_matching: Option<bool>,
}

/// Extension Service Role Type.
#[derive(Debug, Clone, PartialEq)]
pub enum ExtensionServiceRoleType {
    Editor,
    Viewer,
}

/// Service.
#[derive(Debug, Clone, PartialEq, Default)]
pub struct Service {
    /// A keyboard shortcut that invokes the service menu command.
    pub key_equivalent: Option<DefaultDictionary>,
    /// Text for a Services menu item.
    pub menu_item: DefaultDictionary,
    /// An instance method that invokes the service.
    pub message: String,
    /// The port that the service monitors for incoming requests.
    pub port_name: Option<String>,
    /// The data types that the service returns.
    pub return_types: Option<Vec<String>>,
    /// The data types that the service can read.
    pub send_types: Option<Vec<String>>,
    /// The amount of time, in milliseconds, that the system waits for a response from the service.
    pub timeout: Option<String>,
    /// A service-specific string value.
    pub user_data: Option<BTreeMap<String, String>>,
}

/// Default Dictionary.
#[derive(Debug, Clone, PartialEq, Default)]
pub struct DefaultDictionary {
    pub default: String,
}

/// Complication Supported Families.
#[derive(Debug, Clone, PartialEq)]
pub enum ComplicationSupportedFamilies {
    ModularSmall,
    ModularLarge,
    UtilitarianSmall,
    UtilitarianSmallFlat,
    UtilitarianLarge,
    CircularSmall,
    ExtraLarge,
    GraphicCorner,
    GraphicBezel,
    GraphicCircular,
    GraphicRectangular,
}

/// Architecture Priority.
#[derive(Debug, Clone, PartialEq)]
pub enum ArchitecturePriority {
    /// The 32-bit Intel architecture.
    I386,
    /// The 64-bit Intel architecture.
    X86_64,
    /// The 64-bit ARM architecture.
    Arm64,
    /// The 64-bit ARM architecture with pointer authentication code support.
    Arm64e,
}

/// Device Capabilities.
#[derive(Debug, Clone, PartialEq)]
pub enum DeviceCapabilities {
    /// The presence of accelerometers. Use the Core Motion framework to receive accelerometer events. You don’t need to
    /// include this value if your app detects only device orientation changes. Available in iOS 3.0 and later.
    Accelerometer,
    /// Support for ARKit. Available in iOS 11.0 and later.
    Arkit,
    /// Compilation for the armv7 instruction set, or as a 32/64-bit universal app. Available in iOS 3.1 and later.
    Armv7,
    /// Compilation for the arm64 instruction set. Include this key for all 64-bit apps and embedded bundles, like
    /// extensions and frameworks. Available in iOS 8.0 and later.
    Arm64,
    /// Autofocus capabilities in the device’s still camera. You might need to include this value if your app supports
    /// macro photography or requires sharper images to perform certain image-processing tasks. Available in iOS 3.0 and later.
    AutoFocusCamera,
    /// Bluetooth low-energy hardware. Available in iOS 5.0 and later.
    BluetoothLe,
    /// A camera flash. Use the cameraFlashMode property of a UIImagePickerController instance to control the camera’s
    /// flash. Available in iOS 3.0 and later.
    CameraFlash,
    /// A forward-facing camera. Use the cameraDevice property of a UIImagePickerController instance to select the
    /// device’s camera. Available in iOS 3.0 and later.
    FrontFacingCamera,
    /// Access to the Game Center service. Enable the Game Center capability in Xcode to add this value to your app.
    /// Available in iOS 4.1 and later.
    Gamekit,
    /// GPS (or AGPS) hardware for tracking locations. If you include this value, you should also include the
    /// location-services value. Require GPS only if your app needs location data more accurate than the cellular or Wi-Fi
    /// radios provide. Available in iOS 3.0 and later.
    Gps,
    /// A gyroscope. Use the Core Motion framework to retrieve information from gyroscope hardware. Available in iOS 3.0 and later.
    Gyroscope,
    /// Support for HealthKit. Available in iOS 8.0 and later.
    Healthkit,
    /// Performance and capabilities of the A12 Bionic and later chips. Available in iOS 12.0 and later.
    IphoneIpadMinimumPerformanceA12,
    /// Access to the device’s current location using the Core Location framework. This value refers to the general location
    /// services feature. If you specifically need GPS-level accuracy, also include the gps feature. Available in iOS 3.0 and later.
    LocationServices,
    /// Magnetometer hardware. Apps use this hardware to receive heading-related events through the Core Location framework.
    /// Available in iOS 3.0 and later.
    Magnetometer,
    // Support for graphics processing with Metal. Available in iOS 8.0 and later.
    Metal,
    /// The built-in microphone or accessories that provide a microphone. Available in iOS 3.0 and later.
    Microphone,
    /// Near Field Communication (NFC) tag detection and access to messages that contain NFC Data Exchange Format data.
    /// Use the Core NFC framework to detect and read NFC tags. Available in iOS 11.0 and later.
    Nfc,
    /// The OpenGL ES 1.1 interface. Available in iOS 3.0 and later.
    Opengles1,
    /// The OpenGL ES 2.0 interface. Available in iOS 3.0 and later.
    Opengles2,
    /// The OpenGL ES 3.0 interface. Available in iOS 7.0 and later.
    Opengles3,
    /// Peer-to-peer connectivity over a Bluetooth network. Available in iOS 3.1 and later.
    PeerPeer,
    /// The Messages app. You might require this feature if your app opens URLs with the sms scheme. Available in iOS 3.0 and later.
    Sms,
    /// A camera on the device. Use the UIImagePickerController interface to capture images from the device’s still camera.
    /// Available in iOS 3.0 and later.
    StillCamera,
    /// The Phone app. You might require this feature if your app opens URLs with the tel scheme. Available in iOS 3.0 and later.
    Telephony,
    /// A camera with video capabilities on the device. Use the UIImagePickerController interface to capture video from the
    /// device’s camera. Available in iOS 3.0 and later.
    VideoCamera,
    /// Networking features related to Wi-Fi access. Available in iOS 3.0 and later.
    Wifi,
}

} // verus!
