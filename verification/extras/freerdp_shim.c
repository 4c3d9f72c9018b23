/*
 * Accessors over FreeRDP 2 structures for the client in app/.
 *
 * The Rust side treats every FreeRDP structure as opaque and reaches the
 * fields it reads or writes through these functions, compiled against the
 * system's FreeRDP headers and linked with freerdp2, freerdp-client2 and
 * winpr2.
 */
#include <stdlib.h>
#include <string.h>

#include <freerdp/freerdp.h>
#include <freerdp/client.h>
#include <freerdp/gdi/gdi.h>
#include <freerdp/settings.h>

/* The client context: FreeRDP's common client context and nothing more. */
typedef struct
{
	rdpClientContext common;
} RdpWryContext;

rdpContext* rdp_wry_client_context_new(pRdpGlobalInit global_init,
                                       pRdpGlobalUninit global_uninit,
                                       pRdpClientNew client_new,
                                       pRdpClientFree client_free,
                                       pRdpClientStart client_start,
                                       pRdpClientStop client_stop)
{
	RDP_CLIENT_ENTRY_POINTS ep;
	memset(&ep, 0, sizeof(ep));
	ep.Version = RDP_CLIENT_INTERFACE_VERSION;
	ep.Size = sizeof(RDP_CLIENT_ENTRY_POINTS_V1);
	ep.GlobalInit = global_init;
	ep.GlobalUninit = global_uninit;
	ep.ContextSize = sizeof(RdpWryContext);
	ep.ClientNew = client_new;
	ep.ClientFree = client_free;
	ep.ClientStart = client_start;
	ep.ClientStop = client_stop;
	return freerdp_client_context_new(&ep);
}

freerdp* rdp_wry_context_instance(rdpContext* context)
{
	return context->instance;
}

rdpContext* rdp_wry_instance_context(freerdp* instance)
{
	return instance->context;
}

rdpInput* rdp_wry_context_input(rdpContext* context)
{
	return context->input;
}

void rdp_wry_apply_pre_connect(freerdp* instance, UINT32 os_major, UINT32 os_minor,
                               UINT32 connection_type, BOOL ignore_certificate)
{
	rdpSettings* settings = instance->context->settings;
	settings->OsMajorType = os_major;
	settings->OsMinorType = os_minor;
	settings->ConnectionType = connection_type;
	settings->IgnoreCertificate = ignore_certificate;
}

/* The strings are copied; the caller keeps its own. */
void rdp_wry_apply_connection(rdpContext* context, const char* host, UINT32 port,
                              const char* username, const char* password)
{
	rdpSettings* settings = context->settings;
	settings->ServerHostname = _strdup(host);
	settings->ServerPort = port;
	settings->Username = _strdup(username);
	settings->Password = _strdup(password);
}

void rdp_wry_register_instance_callbacks(freerdp* instance, pPreConnect pre_connect,
                                         pPostConnect post_connect,
                                         pPostDisconnect post_disconnect,
                                         pLogonErrorInfo logon_error_info)
{
	instance->PreConnect = pre_connect;
	instance->PostConnect = post_connect;
	instance->PostDisconnect = post_disconnect;
	instance->LogonErrorInfo = logon_error_info;
}

void rdp_wry_register_update_callbacks(freerdp* instance, pBeginPaint begin_paint,
                                       pEndPaint end_paint, pDesktopResize desktop_resize)
{
	rdpUpdate* update = instance->context->update;
	update->BeginPaint = begin_paint;
	update->EndPaint = end_paint;
	update->DesktopResize = desktop_resize;
}

INT32 rdp_wry_invalid_count(rdpContext* context)
{
	return context->gdi->primary->hdc->hwnd->ninvalid;
}

INT32 rdp_wry_screen_width(rdpContext* context)
{
	return context->gdi->width;
}

INT32 rdp_wry_screen_height(rdpContext* context)
{
	return context->gdi->height;
}

const BYTE* rdp_wry_primary_buffer(rdpContext* context)
{
	return context->gdi->primary_buffer;
}

void rdp_wry_clear_invalid(rdpContext* context)
{
	HGDI_WND hwnd = context->gdi->primary->hdc->hwnd;
	hwnd->invalid->null = TRUE;
	hwnd->ninvalid = 0;
}
