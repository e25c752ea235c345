use vstd::prelude::*;

verus! {

/// Status text shown when the browser provides no WebGPU adapter.
pub const WEBGPU_UNAVAILABLE_TEXT: &'static str = "WebGPU unavailable\n\nThis simulator requires WebGPU hardware acceleration for its GPU physics and rendering.\n\nYour browser did not provide a compatible WebGPU adapter.\n\nTry:\n- Enable hardware acceleration in your browser\n- Restart the browser after changing that setting\n- Update to a current WebGPU-capable browser\n- Check your browser's GPU/WebGPU support\n\nYour GPU hardware may still be compatible even if the current browser configuration does not expose WebGPU.";

/// Added to the unavailable text when the failure was requested through the
/// query string.
pub const SIMULATED_FAILURE_NOTICE: &'static str = "\n\nDevelopment test: simulated WebGPU failure.";

/// Opening of the status text shown when a WebGPU device cannot be created;
/// the technical detail follows it.
pub const WEBGPU_DEVICE_FAILURE_TEXT: &'static str = "WebGPU device creation failed\n\nA WebGPU adapter was found, but the simulator could not create the GPU device required for physics and rendering.\n\nTry enabling browser hardware acceleration, updating your browser and graphics drivers, then restarting the browser.\n\nTechnical detail: ";

/// The status message for a missing WebGPU adapter; a simulated failure
/// says so at the end.
pub fn webgpu_unavailable_message(simulated_failure: bool) -> (message: String)
    ensures
        message@ == WEBGPU_UNAVAILABLE_TEXT@ + if simulated_failure {
            SIMULATED_FAILURE_NOTICE@
        } else {
            Seq::<char>::empty()
        },
{
    let mut message = String::from_str(WEBGPU_UNAVAILABLE_TEXT);
    if simulated_failure {
        message.append(SIMULATED_FAILURE_NOTICE);
    } else {
        assert(message@ =~= WEBGPU_UNAVAILABLE_TEXT@ + Seq::<char>::empty());
    }
    message
}

/// The status message for a failed device request, ending with the error
/// text that WebGPU reported.
pub fn webgpu_device_failure_message(error: &str) -> (message: String)
    ensures
        message@ == WEBGPU_DEVICE_FAILURE_TEXT@ + error@,
{
    let mut message = String::from_str(WEBGPU_DEVICE_FAILURE_TEXT);
    message.append(error);
    message
}

} // verus!
