//! The platform calls of the Windows capture path, what each reply to them
//! means, and the order in which they are made.

use vstd::prelude::*;
use vstd::string::*;

use crate::geometry::SignedSize;
use crate::text::{join3, push_signed_extent};
use crate::web_surface::WryWebSurfaceError;

verus! {

/// One call into the platform.
#[derive(Clone, Copy, Debug, PartialEq, Eq, Structural)]
pub enum PlatformCall {
    /// Create the compositor.
    CreateCompositor,
    /// Ask the compositor for its desktop interface.
    CastCompositorInterop,
    /// Create the target that puts visuals into the parent window.
    CreateDesktopWindowTarget,
    /// Create the root visual.
    CreateRootVisual,
    /// Place the root visual when the tree is built.
    SetRootOffset,
    /// Size the root visual when the tree is built.
    SetRootSize,
    /// Create the backdrop sprite.
    CreateBackdropSprite,
    /// Size the backdrop sprite.
    SetBackdropSize,
    /// Create the brush of the backdrop.
    CreateBackdropBrush,
    /// Give the backdrop its brush.
    SetBackdropBrush,
    /// List the root's children, for the backdrop.
    ListRootChildrenForBackdrop,
    /// Put the backdrop under everything else.
    InsertBackdropAtBottom,
    /// Create the visual of the webview.
    CreateWebviewVisual,
    /// Size the webview's visual when the tree is built.
    SetWebviewVisualSize,
    /// List the root's children, for the webview.
    ListRootChildrenForWebview,
    /// Put the webview above everything else.
    InsertWebviewAtTop,
    /// Make the root visual the target's root.
    SetTargetRoot,
    /// Create the user data directory.
    CreateUserDataDir,
    /// Request a WebView2 environment and wait for the reply.
    RequestEnvironment,
    /// Take the environment's reply from its channel.
    ReceiveEnvironment,
    /// Read the environment from the reply.
    ReadEnvironmentResult,
    /// Ask the environment for its composition interface.
    CastEnvironment,
    /// Request a composition controller and wait for the reply.
    RequestController,
    /// Take the controller's reply from its channel.
    ReceiveController,
    /// Read the controller from the reply.
    ReadControllerResult,
    /// Let the controller render into the webview's visual.
    SetRootVisualTarget,
    /// Ask the composition controller for its base interface.
    CastController,
    /// Give the controller its bounds.
    SetControllerBounds,
    /// Make the controller visible.
    SetControllerVisible,
    /// Ask the controller for its webview.
    GetCoreWebView,
    /// Create a hardware D3D11 device.
    CreateD3d11Device,
    /// Take the device that was created.
    TakeD3d11Device,
    /// Take the immediate context that was created.
    TakeD3d11Context,
    /// Ask the D3D11 device for its DXGI interface.
    CastDxgiDevice,
    /// Wrap the DXGI device for WinRT.
    CreateWinrtDevice,
    /// Ask the wrapped device for its WinRT interface.
    CastWinrtDevice,
    /// Resize the root visual.
    ResizeRootVisual,
    /// Resize the webview's visual.
    ResizeWebviewVisual,
    /// Move the root visual.
    MoveRootVisual,
    /// Listen for the end of a navigation.
    AddNavigationHandler,
    /// Start a navigation to inline HTML.
    NavigateToString,
    /// Stop listening for the end of a navigation.
    RemoveNavigationHandler,
    /// Run a script in the page and wait for it.
    ExecuteScript,
    /// Ask whether this session can capture.
    IsCaptureSupported,
    /// Ask the webview's visual for its base interface.
    CastWebviewVisual,
    /// Make the webview's visual a capture item.
    CreateItemFromVisual,
    /// Get the factory of capture items for windows.
    GetItemFactory,
    /// Make a window a capture item.
    CreateItemForWindow,
    /// Read the size of the capture item.
    ReadItemSize,
    /// Create the pool that frames arrive in.
    CreateFramePool,
    /// Create the capture session.
    CreateCaptureSession,
    /// Keep the cursor out of the capture.
    DisableCursorCapture,
    /// Ask for no border around what is captured.
    DisableCaptureBorder,
    /// Start the capture session.
    StartCapture,
    /// Take the next frame out of the pool.
    TryGetNextFrame,
    /// Read the size of a frame's content.
    ReadContentSize,
    /// Read the surface of a frame.
    ReadSurface,
    /// Ask the surface for its DXGI access interface.
    CastSurfaceAccess,
    /// Get the texture behind a captured visual.
    GetCapturedTexture,
    /// Get the texture behind a captured window.
    GetCapturedWindowTexture,
    /// Borrow a texture through its raw pointer.
    BorrowTexture,
    /// Create a shareable texture.
    CreateTexture,
    /// Take the texture that was created.
    TakeTexture,
    /// Ask a texture for its DXGI resource interface.
    CastDxgiResource,
    /// Export a shared handle of a texture.
    CreateSharedHandle,
    /// Lock the destination that the consumer reads, through its keyed mutex.
    LockDestination,
    /// Copy a captured texture into a shared one.
    CopyCapture,
    /// Wait until the GPU has finished the copy.
    AwaitCopy,
    /// Unlock the destination for the consumer.
    UnlockDestination,
    /// Close a shared handle.
    CloseHandle,
    /// Close a captured frame.
    CloseFrame,
    /// Close the capture session.
    CloseCaptureSession,
    /// Close the pool that frames arrive in.
    CloseFramePool,
}

/// What came back from a [`PlatformCall`].
#[derive(Debug)]
pub enum CallReply {
    /// The call succeeded.
    Done,
    /// The call failed, for the given cause.
    Failed(String),
    /// The call failed on the given subject, for the given cause.
    FailedFor { subject: String, cause: String },
    /// The call succeeded and gave nothing.
    Missing,
    /// The call answered yes or no.
    Flag(bool),
    /// The call answered with a size.
    Extent(SignedSize),
    /// The call answered with a handle.
    Handle(u64),
}

impl PlatformCall {
    /// The name under which failures of this call are reported.
    pub open spec fn spec_context(self) -> &'static str {
        match self {
            PlatformCall::CreateCompositor => "Compositor::new",
            PlatformCall::CastCompositorInterop => "Compositor cast to ICompositorDesktopInterop",
            PlatformCall::CreateDesktopWindowTarget => "CreateDesktopWindowTarget",
            PlatformCall::CreateRootVisual => "CreateContainerVisual (root)",
            PlatformCall::SetRootOffset => "ContainerVisual::SetOffset",
            PlatformCall::SetRootSize => "ContainerVisual::SetSize (root)",
            PlatformCall::CreateBackdropSprite => "CreateSpriteVisual (diagnostic)",
            PlatformCall::SetBackdropSize => "SpriteVisual::SetSize",
            PlatformCall::CreateBackdropBrush => "CreateColorBrushWithColor",
            PlatformCall::SetBackdropBrush => "SpriteVisual::SetBrush",
            PlatformCall::ListRootChildrenForBackdrop => "root.Children()",
            PlatformCall::InsertBackdropAtBottom => "Children::InsertAtBottom",
            PlatformCall::CreateWebviewVisual => "CreateContainerVisual (webview)",
            PlatformCall::SetWebviewVisualSize => "ContainerVisual::SetSize (webview)",
            PlatformCall::ListRootChildrenForWebview => "root.Children() (webview)",
            PlatformCall::InsertWebviewAtTop => "Children::InsertAtTop (webview)",
            PlatformCall::SetTargetRoot => "DesktopWindowTarget::SetRoot",
            PlatformCall::CreateUserDataDir => "create user_data_dir",
            PlatformCall::RequestEnvironment => "CreateCoreWebView2Environment",
            PlatformCall::ReceiveEnvironment => "CreateCoreWebView2Environment completion channel",
            PlatformCall::ReadEnvironmentResult => "CreateCoreWebView2Environment result",
            PlatformCall::CastEnvironment => "environment cast to ICoreWebView2Environment3",
            PlatformCall::RequestController => "CreateCoreWebView2CompositionController",
            PlatformCall::ReceiveController => "CreateCoreWebView2CompositionController completion channel",
            PlatformCall::ReadControllerResult => "CreateCoreWebView2CompositionController result",
            PlatformCall::SetRootVisualTarget => "SetRootVisualTarget",
            PlatformCall::CastController => "composition controller cast",
            PlatformCall::SetControllerBounds => "controller.SetBounds",
            PlatformCall::SetControllerVisible => "controller.SetIsVisible",
            PlatformCall::GetCoreWebView => "controller.CoreWebView2",
            PlatformCall::CreateD3d11Device => "D3D11CreateDevice",
            PlatformCall::TakeD3d11Device => "D3D11CreateDevice",
            PlatformCall::TakeD3d11Context => "D3D11CreateDevice",
            PlatformCall::CastDxgiDevice => "ID3D11Device cast to IDXGIDevice",
            PlatformCall::CreateWinrtDevice => "CreateDirect3D11DeviceFromDXGIDevice",
            PlatformCall::CastWinrtDevice => "IDirect3DDevice cast",
            PlatformCall::ResizeRootVisual => "root.SetSize",
            PlatformCall::ResizeWebviewVisual => "webview_visual.SetSize",
            PlatformCall::MoveRootVisual => "root.SetOffset",
            PlatformCall::AddNavigationHandler => "add_NavigationCompleted",
            PlatformCall::NavigateToString => "NavigateToString",
            PlatformCall::RemoveNavigationHandler => "remove_NavigationCompleted",
            PlatformCall::ExecuteScript => "ExecuteScript",
            PlatformCall::IsCaptureSupported => "GraphicsCaptureSession::IsSupported",
            PlatformCall::CastWebviewVisual => "webview_visual cast to Visual",
            PlatformCall::CreateItemFromVisual => "GraphicsCaptureItem::CreateFromVisual",
            PlatformCall::GetItemFactory => "GraphicsCaptureItem interop factory",
            PlatformCall::CreateItemForWindow => "IGraphicsCaptureItemInterop::CreateForWindow",
            PlatformCall::ReadItemSize => "GraphicsCaptureItem::Size",
            PlatformCall::CreateFramePool => "Direct3D11CaptureFramePool::CreateFreeThreaded",
            PlatformCall::CreateCaptureSession => "CreateCaptureSession",
            PlatformCall::DisableCursorCapture => "SetIsCursorCaptureEnabled",
            PlatformCall::DisableCaptureBorder => "SetIsBorderRequired",
            PlatformCall::StartCapture => "StartCapture",
            PlatformCall::TryGetNextFrame => "TryGetNextFrame",
            PlatformCall::ReadContentSize => "Direct3D11CaptureFrame::ContentSize",
            PlatformCall::ReadSurface => "Direct3D11CaptureFrame::Surface",
            PlatformCall::CastSurfaceAccess => "IDirect3DSurface cast to IDirect3DDxgiInterfaceAccess",
            PlatformCall::GetCapturedTexture => "GetInterface<ID3D11Texture2D>",
            PlatformCall::GetCapturedWindowTexture => "IDirect3DDxgiInterfaceAccess::GetInterface<ID3D11Texture2D>",
            PlatformCall::BorrowTexture => "ID3D11Texture2D::from_raw_borrowed",
            PlatformCall::CreateTexture => "CreateTexture2D",
            PlatformCall::TakeTexture => "CreateTexture2D",
            PlatformCall::CastDxgiResource => "ID3D11Texture2D cast to IDXGIResource1",
            PlatformCall::CreateSharedHandle => "IDXGIResource1::CreateSharedHandle",
            PlatformCall::LockDestination => "IDXGIKeyedMutex::AcquireSync",
            PlatformCall::CopyCapture => "CopyResource",
            PlatformCall::AwaitCopy => "ID3D11Query(D3D11_QUERY_EVENT)",
            PlatformCall::UnlockDestination => "IDXGIKeyedMutex::ReleaseSync",
            PlatformCall::CloseHandle => "CloseHandle",
            PlatformCall::CloseFrame => "Direct3D11CaptureFrame::Close",
            PlatformCall::CloseCaptureSession => "GraphicsCaptureSession::Close",
            PlatformCall::CloseFramePool => "Direct3D11CaptureFramePool::Close",
        }
    }

    /// The name under which failures of this call are reported.
    #[verifier::when_used_as_spec(spec_context)]
    pub fn context(self) -> (r: &'static str)
        ensures
            r == self.context(),
    {
        match self {
            PlatformCall::CreateCompositor => "Compositor::new",
            PlatformCall::CastCompositorInterop => "Compositor cast to ICompositorDesktopInterop",
            PlatformCall::CreateDesktopWindowTarget => "CreateDesktopWindowTarget",
            PlatformCall::CreateRootVisual => "CreateContainerVisual (root)",
            PlatformCall::SetRootOffset => "ContainerVisual::SetOffset",
            PlatformCall::SetRootSize => "ContainerVisual::SetSize (root)",
            PlatformCall::CreateBackdropSprite => "CreateSpriteVisual (diagnostic)",
            PlatformCall::SetBackdropSize => "SpriteVisual::SetSize",
            PlatformCall::CreateBackdropBrush => "CreateColorBrushWithColor",
            PlatformCall::SetBackdropBrush => "SpriteVisual::SetBrush",
            PlatformCall::ListRootChildrenForBackdrop => "root.Children()",
            PlatformCall::InsertBackdropAtBottom => "Children::InsertAtBottom",
            PlatformCall::CreateWebviewVisual => "CreateContainerVisual (webview)",
            PlatformCall::SetWebviewVisualSize => "ContainerVisual::SetSize (webview)",
            PlatformCall::ListRootChildrenForWebview => "root.Children() (webview)",
            PlatformCall::InsertWebviewAtTop => "Children::InsertAtTop (webview)",
            PlatformCall::SetTargetRoot => "DesktopWindowTarget::SetRoot",
            PlatformCall::CreateUserDataDir => "create user_data_dir",
            PlatformCall::RequestEnvironment => "CreateCoreWebView2Environment",
            PlatformCall::ReceiveEnvironment => "CreateCoreWebView2Environment completion channel",
            PlatformCall::ReadEnvironmentResult => "CreateCoreWebView2Environment result",
            PlatformCall::CastEnvironment => "environment cast to ICoreWebView2Environment3",
            PlatformCall::RequestController => "CreateCoreWebView2CompositionController",
            PlatformCall::ReceiveController => "CreateCoreWebView2CompositionController completion channel",
            PlatformCall::ReadControllerResult => "CreateCoreWebView2CompositionController result",
            PlatformCall::SetRootVisualTarget => "SetRootVisualTarget",
            PlatformCall::CastController => "composition controller cast",
            PlatformCall::SetControllerBounds => "controller.SetBounds",
            PlatformCall::SetControllerVisible => "controller.SetIsVisible",
            PlatformCall::GetCoreWebView => "controller.CoreWebView2",
            PlatformCall::CreateD3d11Device => "D3D11CreateDevice",
            PlatformCall::TakeD3d11Device => "D3D11CreateDevice",
            PlatformCall::TakeD3d11Context => "D3D11CreateDevice",
            PlatformCall::CastDxgiDevice => "ID3D11Device cast to IDXGIDevice",
            PlatformCall::CreateWinrtDevice => "CreateDirect3D11DeviceFromDXGIDevice",
            PlatformCall::CastWinrtDevice => "IDirect3DDevice cast",
            PlatformCall::ResizeRootVisual => "root.SetSize",
            PlatformCall::ResizeWebviewVisual => "webview_visual.SetSize",
            PlatformCall::MoveRootVisual => "root.SetOffset",
            PlatformCall::AddNavigationHandler => "add_NavigationCompleted",
            PlatformCall::NavigateToString => "NavigateToString",
            PlatformCall::RemoveNavigationHandler => "remove_NavigationCompleted",
            PlatformCall::ExecuteScript => "ExecuteScript",
            PlatformCall::IsCaptureSupported => "GraphicsCaptureSession::IsSupported",
            PlatformCall::CastWebviewVisual => "webview_visual cast to Visual",
            PlatformCall::CreateItemFromVisual => "GraphicsCaptureItem::CreateFromVisual",
            PlatformCall::GetItemFactory => "GraphicsCaptureItem interop factory",
            PlatformCall::CreateItemForWindow => "IGraphicsCaptureItemInterop::CreateForWindow",
            PlatformCall::ReadItemSize => "GraphicsCaptureItem::Size",
            PlatformCall::CreateFramePool => "Direct3D11CaptureFramePool::CreateFreeThreaded",
            PlatformCall::CreateCaptureSession => "CreateCaptureSession",
            PlatformCall::DisableCursorCapture => "SetIsCursorCaptureEnabled",
            PlatformCall::DisableCaptureBorder => "SetIsBorderRequired",
            PlatformCall::StartCapture => "StartCapture",
            PlatformCall::TryGetNextFrame => "TryGetNextFrame",
            PlatformCall::ReadContentSize => "Direct3D11CaptureFrame::ContentSize",
            PlatformCall::ReadSurface => "Direct3D11CaptureFrame::Surface",
            PlatformCall::CastSurfaceAccess => "IDirect3DSurface cast to IDirect3DDxgiInterfaceAccess",
            PlatformCall::GetCapturedTexture => "GetInterface<ID3D11Texture2D>",
            PlatformCall::GetCapturedWindowTexture => "IDirect3DDxgiInterfaceAccess::GetInterface<ID3D11Texture2D>",
            PlatformCall::BorrowTexture => "ID3D11Texture2D::from_raw_borrowed",
            PlatformCall::CreateTexture => "CreateTexture2D",
            PlatformCall::TakeTexture => "CreateTexture2D",
            PlatformCall::CastDxgiResource => "ID3D11Texture2D cast to IDXGIResource1",
            PlatformCall::CreateSharedHandle => "IDXGIResource1::CreateSharedHandle",
            PlatformCall::LockDestination => "IDXGIKeyedMutex::AcquireSync",
            PlatformCall::CopyCapture => "CopyResource",
            PlatformCall::AwaitCopy => "ID3D11Query(D3D11_QUERY_EVENT)",
            PlatformCall::UnlockDestination => "IDXGIKeyedMutex::ReleaseSync",
            PlatformCall::CloseHandle => "CloseHandle",
            PlatformCall::CloseFrame => "Direct3D11CaptureFrame::Close",
            PlatformCall::CloseCaptureSession => "GraphicsCaptureSession::Close",
            PlatformCall::CloseFramePool => "Direct3D11CaptureFramePool::Close",
        }
    }

    /// Whether this call can succeed and give nothing.
    pub open spec fn may_lack_value(self) -> bool {
        match self {
            PlatformCall::ReceiveEnvironment => true,
            PlatformCall::ReceiveController => true,
            PlatformCall::TakeD3d11Device => true,
            PlatformCall::TakeD3d11Context => true,
            PlatformCall::TakeTexture => true,
            PlatformCall::BorrowTexture => true,
            _ => false,
        }
    }

    /// What is reported where this call gave nothing.
    pub open spec fn spec_missing_text(self) -> &'static str {
        match self {
            PlatformCall::ReceiveEnvironment => "CreateCoreWebView2Environment completion channel closed",
            PlatformCall::ReceiveController => "CreateCoreWebView2CompositionController completion channel closed",
            PlatformCall::TakeD3d11Device => "D3D11CreateDevice returned no device",
            PlatformCall::TakeD3d11Context => "D3D11CreateDevice returned no immediate context",
            PlatformCall::TakeTexture => "CreateTexture2D returned no texture",
            PlatformCall::BorrowTexture => "failed to borrow ID3D11Texture2D pointer",
            _ => "",
        }
    }

    fn missing_text(self) -> (r: &'static str)
        ensures
            r == self.spec_missing_text(),
    {
        match self {
            PlatformCall::ReceiveEnvironment => "CreateCoreWebView2Environment completion channel closed",
            PlatformCall::ReceiveController => "CreateCoreWebView2CompositionController completion channel closed",
            PlatformCall::TakeD3d11Device => "D3D11CreateDevice returned no device",
            PlatformCall::TakeD3d11Context => "D3D11CreateDevice returned no immediate context",
            PlatformCall::TakeTexture => "CreateTexture2D returned no texture",
            PlatformCall::BorrowTexture => "failed to borrow ID3D11Texture2D pointer",
            _ => "",
        }
    }

    /// What stands between this call's name and the cause of its failure.
    pub open spec fn spec_separator(self) -> &'static str {
        match self {
            PlatformCall::CreateUserDataDir => ": ",
            PlatformCall::RequestEnvironment => ": ",
            PlatformCall::RequestController => ": ",
            PlatformCall::ExecuteScript => ": ",
            _ => " failed: ",
        }
    }

    fn separator(self) -> (r: &'static str)
        ensures
            r == self.spec_separator(),
    {
        match self {
            PlatformCall::CreateUserDataDir => ": ",
            PlatformCall::RequestEnvironment => ": ",
            PlatformCall::RequestController => ": ",
            PlatformCall::ExecuteScript => ": ",
            _ => " failed: ",
        }
    }

    /// What is reported where this call failed for the given cause.
    pub open spec fn failure_text(self, cause: Seq<char>) -> Seq<char> {
        self.context()@ + self.spec_separator()@ + cause
    }

    /// The error of this call failing for the given cause.
    pub fn failure(self, cause: &str) -> (r: WryWebSurfaceError)
        ensures
            r.is_platform(self.failure_text(cause@)),
    {
        WryWebSurfaceError::Platform(join3(self.context(), self.separator(), cause))
    }

    /// Whether `reply` is of the kind that this call gives.
    pub open spec fn spec_fits(self, reply: &CallReply) -> bool {
        match reply {
            CallReply::Failed(_) => true,
            CallReply::FailedFor { .. } => self is CreateUserDataDir,
            CallReply::Missing => self.may_lack_value(),
            CallReply::Flag(_) => self is IsCaptureSupported,
            CallReply::Extent(_) => self is ReadItemSize || self is ReadContentSize,
            CallReply::Handle(_) => self is CreateSharedHandle,
            CallReply::Done => !(self is IsCaptureSupported || self is ReadItemSize
                || self is ReadContentSize || self is CreateSharedHandle),
        }
    }

    /// Whether `reply` is of the kind that this call gives.
    #[verifier::when_used_as_spec(spec_fits)]
    pub fn fits(self, reply: &CallReply) -> (r: bool)
        ensures
            r == self.fits(reply),
    {
        match reply {
            CallReply::Failed(_) => true,
            CallReply::FailedFor { .. } => matches!(self, PlatformCall::CreateUserDataDir),
            CallReply::Missing => {
                match self {
                    PlatformCall::ReceiveEnvironment => true,
                    PlatformCall::ReceiveController => true,
                    PlatformCall::TakeD3d11Device => true,
                    PlatformCall::TakeD3d11Context => true,
                    PlatformCall::TakeTexture => true,
                    PlatformCall::BorrowTexture => true,
                    _ => false,
                }
            },
            CallReply::Flag(_) => matches!(self, PlatformCall::IsCaptureSupported),
            CallReply::Extent(_) => {
                match self {
                    PlatformCall::ReadItemSize => true,
                    PlatformCall::ReadContentSize => true,
                    _ => false,
                }
            },
            CallReply::Handle(_) => matches!(self, PlatformCall::CreateSharedHandle),
            CallReply::Done => {
                match self {
                    PlatformCall::IsCaptureSupported => false,
                    PlatformCall::ReadItemSize => false,
                    PlatformCall::ReadContentSize => false,
                    PlatformCall::CreateSharedHandle => false,
                    _ => true,
                }
            },
        }
    }

    /// Whether the work goes on though this call fails: the looks of a capture and
    /// closing what it has used are only tried.
    pub open spec fn spec_is_best_effort(self) -> bool {
        ||| self is DisableCursorCapture
        ||| self is DisableCaptureBorder
        ||| self is CloseFrame
        ||| self is CloseCaptureSession
        ||| self is CloseFramePool
    }

    /// Whether the work goes on though this call fails: the looks of a capture and
    /// closing what it has used are only tried.
    #[verifier::when_used_as_spec(spec_is_best_effort)]
    pub fn is_best_effort(self) -> (r: bool)
        ensures
            r == self.is_best_effort(),
    {
        match self {
            PlatformCall::DisableCursorCapture => true,
            PlatformCall::DisableCaptureBorder => true,
            PlatformCall::CloseFrame => true,
            PlatformCall::CloseCaptureSession => true,
            PlatformCall::CloseFramePool => true,
            _ => false,
        }
    }

    /// Whether `reply` lets the work go on.
    ///
    /// A failed call does only where it is best effort, and a missing value does
    /// not. Nor does a session that cannot capture, nor a capture item without
    /// pixels.
    pub open spec fn accepts(self, reply: CallReply) -> bool {
        match reply {
            CallReply::Failed(_) => self.is_best_effort(),
            CallReply::FailedFor { .. } => false,
            CallReply::Missing => false,
            CallReply::Flag(answer) => self is IsCaptureSupported ==> answer,
            CallReply::Extent(size) => self is ReadItemSize ==> size.is_positive(),
            CallReply::Done => true,
            CallReply::Handle(_) => true,
        }
    }

    /// Whether `error` is what a reply that ends the work is reported as.
    pub open spec fn reports(self, reply: CallReply, error: WryWebSurfaceError) -> bool {
        match reply {
            CallReply::Failed(cause) => error.is_platform(self.failure_text(cause@)),
            CallReply::FailedFor { subject, cause } => error.is_platform(
                self.context()@ + " "@ + subject@ + ": "@ + cause@,
            ),
            CallReply::Missing => error.is_platform(self.spec_missing_text()@),
            CallReply::Flag(_) => error == WryWebSurfaceError::Unsupported(
                "Windows.Graphics.Capture is not supported in this session",
            ),
            CallReply::Extent(size) => error.is_platform(
                "GraphicsCaptureItem returned invalid size "@ + crate::text::extent_text(
                    size.width as int,
                    size.height as int,
                ),
            ),
            CallReply::Done => false,
            CallReply::Handle(_) => false,
        }
    }

    /// What `reply` means for the work that this call is a part of.
    pub fn judge(self, reply: &CallReply) -> (r: Result<(), WryWebSurfaceError>)
        requires
            self.fits(reply),
        ensures
            r is Ok <==> self.accepts(*reply),
            r matches Err(error) ==> self.reports(*reply, error),
    {
        match reply {
            CallReply::Failed(cause) => {
                if self.is_best_effort() {
                    Ok(())
                } else {
                    Err(self.failure(cause.as_str()))
                }
            },
            CallReply::FailedFor { subject, cause } => {
                let mut out = join3(self.context(), " ", subject.as_str());
                out.append(": ");
                out.append(cause.as_str());
                Err(WryWebSurfaceError::Platform(out))
            },
            CallReply::Missing => Err(
                WryWebSurfaceError::Platform(self.missing_text().to_owned()),
            ),
            CallReply::Flag(answer) => {
                if matches!(self, PlatformCall::IsCaptureSupported) && !*answer {
                    Err(
                        WryWebSurfaceError::Unsupported(
                            "Windows.Graphics.Capture is not supported in this session",
                        ),
                    )
                } else {
                    Ok(())
                }
            },
            CallReply::Extent(size) => {
                if matches!(self, PlatformCall::ReadItemSize) && !size.is_positive() {
                    let mut out = "GraphicsCaptureItem returned invalid size ".to_owned();
                    push_signed_extent(&mut out, size.width, size.height);
                    Err(WryWebSurfaceError::Platform(out))
                } else {
                    Ok(())
                }
            },
            CallReply::Done => Ok(()),
            CallReply::Handle(_) => Ok(()),
        }
    }
}

/// What the replies of a [`CallSequence`] have given so far.
#[derive(Clone, Copy, Debug, PartialEq, Eq, Structural)]
pub struct Findings {
    /// The size of the capture item, once it has been read.
    pub item: Option<SignedSize>,
    /// The content size of the frame, once it has been read.
    pub content: Option<SignedSize>,
    /// The shared handle, once it has been exported.
    pub handle: Option<u64>,
}

impl Findings {
    /// These findings together with what `reply` to `call` gives.
    pub open spec fn spec_with(self, call: PlatformCall, reply: &CallReply) -> Findings {
        match reply {
            CallReply::Extent(size) => if call is ReadContentSize {
                Findings { content: Some(*size), ..self }
            } else {
                Findings { item: Some(*size), ..self }
            },
            CallReply::Handle(handle) => Findings { handle: Some(*handle), ..self },
            _ => self,
        }
    }

    /// These findings together with what `reply` to `call` gives.
    #[verifier::when_used_as_spec(spec_with)]
    pub fn with(self, call: PlatformCall, reply: &CallReply) -> (r: Findings)
        ensures
            r == self.with(call, reply),
        no_unwind
    {
        match reply {
            CallReply::Extent(size) => if matches!(call, PlatformCall::ReadContentSize) {
                Findings { item: self.item, content: Some(*size), handle: self.handle }
            } else {
                Findings { item: Some(*size), content: self.content, handle: self.handle }
            },
            CallReply::Handle(handle) => Findings {
                item: self.item,
                content: self.content,
                handle: Some(*handle),
            },
            _ => self,
        }
    }

    /// Nothing has been found yet.
    pub open spec fn spec_nothing() -> Findings {
        Findings { item: None, content: None, handle: None }
    }
}

/// A list of calls that is worked off in order, up to the first reply that ends
/// the work.
#[derive(Debug)]
pub struct CallSequence {
    calls: Vec<PlatformCall>,
    done: usize,
    findings: Findings,
}

impl CallSequence {
    /// The calls of this sequence.
    pub closed spec fn calls(&self) -> Seq<PlatformCall> {
        self.calls@
    }

    /// How many of the calls have been accepted.
    pub closed spec fn done(&self) -> nat {
        self.done as nat
    }

    /// What the replies have given so far.
    pub closed spec fn spec_findings(&self) -> Findings {
        self.findings
    }

    /// No more calls are accepted than there are, and what an accepted call
    /// gives has been kept.
    #[verifier::type_invariant]
    pub closed spec fn well_formed(&self) -> bool {
        &&& self.done <= self.calls@.len()
        &&& forall|i: int|
            0 <= i < self.done && #[trigger] self.calls@[i] is ReadItemSize
                ==> self.findings.item is Some
        &&& forall|i: int|
            0 <= i < self.done && #[trigger] self.calls@[i] is ReadContentSize
                ==> self.findings.content is Some
        &&& forall|i: int|
            0 <= i < self.done && #[trigger] self.calls@[i] is CreateSharedHandle
                ==> self.findings.handle is Some
    }

    /// The call that is due.
    pub open spec fn spec_current(&self) -> Option<PlatformCall> {
        if self.done() < self.calls().len() {
            Some(self.calls()[self.done() as int])
        } else {
            None
        }
    }

    /// Whether every call has been accepted.
    pub open spec fn finished(&self) -> bool {
        self.done() == self.calls().len()
    }

    /// A sequence with all of `calls` still to be made.
    pub(crate) fn new(calls: Vec<PlatformCall>) -> (r: Self)
        ensures
            r.calls() == calls@,
            r.done() == 0,
            r.spec_findings() == Findings::spec_nothing(),
    {
        let findings = Findings { item: None, content: None, handle: None };
        CallSequence { calls, done: 0, findings }
    }

    /// The call that is due, if any is left.
    pub fn current(&self) -> (r: Option<PlatformCall>)
        ensures
            r == self.spec_current(),
            r is None <==> self.finished(),
    {
        proof {
            use_type_invariant(self);
        }
        if self.done < self.calls.len() {
            Some(self.calls[self.done])
        } else {
            None
        }
    }

    /// Whether a call that has been accepted is `call`.
    pub open spec fn has_done(&self, call: PlatformCall) -> bool {
        exists|i: int| 0 <= i < self.done() && #[trigger] self.calls()[i] == call
    }

    /// What the replies have given so far: a size that was read and a handle
    /// that was exported are there.
    pub fn findings(&self) -> (r: Findings)
        ensures
            r == self.spec_findings(),
            self.has_done(PlatformCall::ReadItemSize) ==> r.item is Some,
            self.has_done(PlatformCall::ReadContentSize) ==> r.content is Some,
            self.has_done(PlatformCall::CreateSharedHandle) ==> r.handle is Some,
    {
        proof {
            use_type_invariant(self);
        }
        self.findings
    }

    /// Whether this is what `before` becomes when `reply` to the call that was due
    /// is reported and answered with `r`: an accepted reply makes the next call
    /// due, and any other leaves the sequence as it is.
    pub open spec fn follows(
        &self,
        before: &CallSequence,
        reply: &CallReply,
        r: Result<(), WryWebSurfaceError>,
    ) -> bool {
        let call = before.spec_current()->0;
        &&& self.calls() == before.calls()
        &&& r is Ok <==> call.accepts(*reply)
        &&& r is Ok ==> {
            &&& self.done() == before.done() + 1
            &&& self.spec_findings() == before.spec_findings().with(call, reply)
        }
        &&& r matches Err(error) ==> self == before && call.reports(*reply, error)
    }

    /// Reports the reply to the call that was due. An accepted reply makes the
    /// next call due; any other leaves the sequence as it is.
    pub fn report(&mut self, reply: &CallReply) -> (r: Result<(), WryWebSurfaceError>)
        requires
            old(self).spec_current() is Some,
            old(self).spec_current()->0.fits(reply),
        ensures
            final(self).follows(old(self), reply, r),
    {
        match self.judge(reply) {
            Ok(()) => {
                self.advance(reply);
                Ok(())
            },
            Err(error) => Err(error),
        }
    }

    /// What `reply` to the call that is due means.
    pub(crate) fn judge(&self, reply: &CallReply) -> (r: Result<(), WryWebSurfaceError>)
        requires
            self.spec_current() is Some,
            self.spec_current()->0.fits(reply),
        ensures
            r is Ok <==> self.spec_current()->0.accepts(*reply),
            r matches Err(error) ==> self.spec_current()->0.reports(*reply, error),
    {
        proof {
            use_type_invariant(self);
        }
        self.calls[self.done].judge(reply)
    }

    /// Takes over an accepted reply to the call that was due.
    pub(crate) fn advance(&mut self, reply: &CallReply)
        requires
            old(self).spec_current() is Some,
            old(self).spec_current()->0.fits(reply),
            old(self).spec_current()->0.accepts(*reply),
        ensures
            final(self).calls() == old(self).calls(),
            final(self).done() == old(self).done() + 1,
            final(self).spec_findings() == old(self).spec_findings().with(
                old(self).spec_current()->0,
                reply,
            ),
        no_unwind
    {
        proof {
            use_type_invariant(&*self);
        }
        let call = self.calls[self.done];
        let total: usize = self.calls.len();
        assert(self.done < total);
        let findings = self.findings.with(call, reply);
        self.findings = findings;
        self.done = self.done + 1;
    }
}

/// A call that fails ends the work, unless it only changes the looks of a capture or
/// closes what one has used. So does a value that is missing, a session that cannot
/// capture, and a capture item without pixels; nothing else does.
pub proof fn failed_call_ends_the_work(
    call: PlatformCall,
    reply: &CallReply,
    r: Result<(), WryWebSurfaceError>,
)
    requires
        call.fits(reply),
        call_ensures(PlatformCall::judge, (call, reply), r),
    ensures
        reply is Failed ==> (r is Ok <==> {
            ||| call == PlatformCall::DisableCursorCapture
            ||| call == PlatformCall::DisableCaptureBorder
            ||| call == PlatformCall::CloseFrame
            ||| call == PlatformCall::CloseCaptureSession
            ||| call == PlatformCall::CloseFramePool
        }),
        reply is FailedFor || reply is Missing ==> r is Err,
        reply matches CallReply::Flag(answer) ==> (r is Ok <==> *answer),
        reply matches CallReply::Extent(size) ==> (r is Err <==> call == PlatformCall::ReadItemSize
            && (size.width < 1 || size.height < 1)),
        reply is Done || reply is Handle ==> r is Ok,
{
}

/// A failure is reported with its cause: the message names the call first and ends in
/// the cause, in full. A session that cannot capture is unsupported and no failure of
/// the platform.
pub proof fn failure_is_reported_with_its_cause(
    call: PlatformCall,
    reply: &CallReply,
    error: WryWebSurfaceError,
)
    requires
        call.fits(reply),
        call_ensures(
            PlatformCall::judge,
            (call, reply),
            Err::<(), WryWebSurfaceError>(error),
        ),
    ensures
        reply matches CallReply::Failed(cause) ==> (error matches WryWebSurfaceError::Platform(shown)
            && {
            &&& call.context()@.is_prefix_of(shown@)
            &&& shown@.len() >= cause@.len()
            &&& shown@.skip(shown@.len() - cause@.len()) == cause@
        }),
        reply matches CallReply::FailedFor { subject, cause } ==> (error
            matches WryWebSurfaceError::Platform(shown) && {
            &&& call.context()@.is_prefix_of(shown@)
            &&& shown@.len() >= cause@.len()
            &&& shown@.skip(shown@.len() - cause@.len()) == cause@
        }),
        reply is Flag <==> error is Unsupported,
        reply is Missing || reply is Extent ==> error is Platform,
{
    if let CallReply::Failed(cause) = reply {
        assert(call.context()@.is_prefix_of(call.failure_text(cause@)));
    }
}

/// A reply is taken where the call can give it: a failure anywhere, a yes or no where
/// one was asked for, a size where one is read, a handle where one is exported, and
/// otherwise that it is done; nothing at all only where something was to be taken.
pub proof fn replies_fit_their_calls(call: PlatformCall, reply: &CallReply)
    ensures
        reply is Failed ==> call.fits(reply),
        reply is FailedFor ==> (call.fits(reply) <==> call == PlatformCall::CreateUserDataDir),
        reply is Flag ==> (call.fits(reply) <==> call == PlatformCall::IsCaptureSupported),
        reply is Extent ==> (call.fits(reply) <==> call == PlatformCall::ReadItemSize || call
            == PlatformCall::ReadContentSize),
        reply is Handle ==> (call.fits(reply) <==> call == PlatformCall::CreateSharedHandle),
        reply is Done ==> (call.fits(reply) <==> call != PlatformCall::IsCaptureSupported && call
            != PlatformCall::ReadItemSize && call != PlatformCall::ReadContentSize && call
            != PlatformCall::CreateSharedHandle),
        reply is Missing ==> (call.fits(reply) <==> {
            ||| call == PlatformCall::ReceiveEnvironment
            ||| call == PlatformCall::ReceiveController
            ||| call == PlatformCall::TakeD3d11Device
            ||| call == PlatformCall::TakeD3d11Context
            ||| call == PlatformCall::TakeTexture
            ||| call == PlatformCall::BorrowTexture
        }),
{
}

/// Calls are made one after the other: a reply that is accepted makes the next call
/// due, one that is not leaves the same call due, and the list itself never changes.
pub proof fn calls_are_made_in_turn(
    sequence: &mut CallSequence,
    reply: &CallReply,
    r: Result<(), WryWebSurfaceError>,
)
    requires
        sequence.spec_current() is Some,
        sequence.spec_current()->0.fits(reply),
        call_ensures(CallSequence::report, (sequence, reply), r),
    ensures
        final(sequence).calls() == old(sequence).calls(),
        old(sequence).spec_current() == Some(old(sequence).calls()[old(sequence).done() as int]),
        r is Ok ==> final(sequence).done() == old(sequence).done() + 1,
        r is Err ==> final(sequence).done() == old(sequence).done()
            && final(sequence).spec_findings() == old(sequence).spec_findings(),
        r is Ok && old(sequence).done() + 1 == old(sequence).calls().len()
            ==> final(sequence).finished() && final(sequence).spec_current() is None,
        r is Ok && old(sequence).done() + 1 < old(sequence).calls().len()
            ==> final(sequence).spec_current() == Some(
            old(sequence).calls()[(old(sequence).done() + 1) as int],
        ),
{
}

/// What a call gives is kept under its own name: the size of the item, that of the
/// content, and the handle, each without touching the others.
pub proof fn findings_are_kept_apart(
    sequence: &mut CallSequence,
    reply: &CallReply,
)
    requires
        sequence.spec_current() is Some,
        sequence.spec_current()->0.fits(reply),
        call_ensures(CallSequence::report, (sequence, reply), Ok::<(), WryWebSurfaceError>(())),
    ensures
        ({
            let call = old(sequence).spec_current()->0;
            let before = old(sequence).spec_findings();
            let after = final(sequence).spec_findings();
            &&& call == PlatformCall::ReadItemSize && reply is Extent ==> after.item == Some(
                reply->Extent_0,
            )
            &&& call == PlatformCall::ReadContentSize && reply is Extent ==> after.content == Some(
                reply->Extent_0,
            )
            &&& call == PlatformCall::CreateSharedHandle && reply is Handle ==> after.handle == Some(
                reply->Handle_0,
            )
            &&& call != PlatformCall::ReadItemSize ==> after.item == before.item
            &&& call != PlatformCall::ReadContentSize ==> after.content == before.content
            &&& call != PlatformCall::CreateSharedHandle ==> after.handle == before.handle
        }),
{
}

/// Whether `first` is made before `second` in `calls`.
#[verifier::opaque]
pub open spec fn comes_before(
    calls: Seq<PlatformCall>,
    first: PlatformCall,
    second: PlatformCall,
) -> bool {
    exists|i: int, j: int|
        #![trigger calls[i], calls[j]]
        0 <= i < j < calls.len() && calls[i] == first && calls[j] == second
}

/// A call that stands before another in a list is made before it.
pub proof fn earlier_call_comes_before(calls: Seq<PlatformCall>, i: int, j: int)
    requires
        0 <= i < j < calls.len(),
    ensures
        comes_before(calls, calls[i], calls[j]),
{
    reveal(comes_before);
}

} // verus!
